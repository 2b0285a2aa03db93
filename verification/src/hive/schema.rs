//! The versions of the shape in which nix describes a hive.
use crate::text::{decimal, decimal_of};
use vstd::prelude::*;

verus! {

/// The version that was used before versions had three parts.
pub const DEPRECATED_SCHEMA_VERSION: u64 = 1;

/// Which versions can be read.
pub open spec fn required_versions() -> Seq<char> {
    "^1.0.0"@
}

/// Which versions can be read.
pub fn schema_version_string() -> (s: String)
    ensures
        s@ == required_versions(),
{
    "^1.0.0".to_owned()
}

/// A version of three numbers, and what may be written behind them.
#[derive(Debug)]
pub struct Semver {
    pub major: u64,
    pub minor: u64,
    pub patch: u64,
    pub pre: String,
    pub build: String,
}

/// What a version holds.
#[verifier::ext_equal]
pub ghost struct SemverView {
    pub major: u64,
    pub minor: u64,
    pub patch: u64,
    pub pre: Seq<char>,
    pub build: Seq<char>,
}

impl View for Semver {
    type V = SemverView;

    open spec fn view(&self) -> SemverView {
        SemverView {
            major: self.major,
            minor: self.minor,
            patch: self.patch,
            pre: self.pre@,
            build: self.build@,
        }
    }
}

/// The version that a text writes, or what is wrong with it.
pub uninterp spec fn parsed_semver(s: Seq<char>) -> Result<SemverView, Seq<char>>;

/// `semver::Version::parse`: the version that a text writes, or its error as `Debug` shows it.
#[verifier::external_body]
fn parse_semver(s: &str) -> (r: Result<Semver, String>)
    ensures
        match r {
            Ok(version) => parsed_semver(s@) == Ok::<SemverView, Seq<char>>(version@),
            Err(error) => parsed_semver(s@) == Err::<SemverView, Seq<char>>(error@),
        },
{
    match semver::Version::parse(s) {
        Ok(version) => Ok(
            Semver {
                major: version.major,
                minor: version.minor,
                patch: version.patch,
                pre: version.pre.as_str().to_owned(),
                build: version.build.as_str().to_owned(),
            },
        ),
        Err(error) => Err(format!("{error:?}")),
    }
}

/// `semver::VersionReq::matches` for the requirement `^1.0.0`: a version matches where its first
/// number is one and it is no pre-release. Both texts are parsed first, which fails on neither.
#[verifier::external_body]
fn meets_requirement(requirement: &str, version: &str) -> (r: bool)
    requires
        requirement@ == required_versions(),
        parsed_semver(version@) is Ok,
    ensures
        r == (parsed_semver(version@)->Ok_0.major == 1 && parsed_semver(
            version@,
        )->Ok_0.pre.len() == 0),
{
    let requirement = semver::VersionReq::parse(requirement).unwrap();
    requirement.matches(&semver::Version::parse(version).unwrap())
}

/// A version as it is shown.
pub open spec fn semver_text(version: SemverView) -> Seq<char> {
    decimal(version.major as nat) + "."@ + decimal(version.minor as nat) + "."@ + decimal(
        version.patch as nat,
    ) + (if version.pre.len() > 0 {
        "-"@ + version.pre
    } else {
        Seq::empty()
    }) + (if version.build.len() > 0 {
        "+"@ + version.build
    } else {
        Seq::empty()
    })
}

impl Semver {
    /// The version as it is shown.
    pub fn to_string(&self) -> (s: String)
        ensures
            s@ == semver_text(self@),
    {
        let mut s = decimal_of(self.major);
        s.push_str(".");
        s.push_str(decimal_of(self.minor).as_str());
        s.push_str(".");
        s.push_str(decimal_of(self.patch).as_str());
        let ghost numbers = s@;
        if !self.pre.as_str().is_empty() {
            s.push_str("-");
            s.push_str(self.pre.as_str());
        }
        assert(s@ =~= numbers + if self@.pre.len() > 0 {
            "-"@ + self@.pre
        } else {
            Seq::empty()
        });
        let ghost released = s@;
        if !self.build.as_str().is_empty() {
            s.push_str("+");
            s.push_str(self.build.as_str());
        }
        assert(s@ =~= released + if self@.build.len() > 0 {
            "+"@ + self@.build
        } else {
            Seq::empty()
        });
        s
    }
}

/// The version of the shape in which a hive is described.
#[derive(Debug)]
pub enum SchemaVersion {
    Semver(Semver),
    DeprecatedInteger(u64),
}

/// What a version of the shape holds.
#[verifier::ext_equal]
pub ghost enum SchemaView {
    Semver(SemverView),
    DeprecatedInteger(u64),
}

impl View for SchemaVersion {
    type V = SchemaView;

    open spec fn view(&self) -> SchemaView {
        match *self {
            SchemaVersion::Semver(version) => SchemaView::Semver(version@),
            SchemaVersion::DeprecatedInteger(number) => SchemaView::DeprecatedInteger(number),
        }
    }
}

/// A version as nix prints it.
#[derive(Debug)]
pub enum SchemaValue {
    /// A number that is not negative and has no fraction.
    Integer(u64),
    /// Another number.
    OtherNumber,
    Text(String),
    /// Something that is neither a number nor a text.
    Other,
}

/// What is said of a number that names another version.
pub open spec fn wrong_number_text(number: u64) -> Seq<char> {
    "your `makeHive` function can't be read (schema verison "@ + decimal(number as nat)
        + ", required "@ + decimal(DEPRECATED_SCHEMA_VERSION as nat)
        + "). please upgrade it or downgrade this binary"@
}

/// What is said of a version that cannot be read.
pub open spec fn wrong_version_text(version: SemverView) -> Seq<char> {
    "your `makeHive`'s version ("@ + semver_text(version) + ") did not match "@
        + required_versions() + ". please upgrade it or downgrade this binary"@
}

/// What is said of a text that is no version.
pub open spec fn no_version_text(error: Seq<char>) -> Seq<char> {
    "failed to parse schema semver. this is likely a bug you should report: "@ + error
}

/// The outcome of a check: the version, or what is wrong with it.
pub open spec fn schema_check(value: SchemaValue) -> Result<SchemaView, Seq<char>> {
    match value {
        SchemaValue::Integer(number) => if number == DEPRECATED_SCHEMA_VERSION {
            Ok(SchemaView::DeprecatedInteger(number))
        } else {
            Err(wrong_number_text(number))
        },
        SchemaValue::OtherNumber => Err(
            "failed to read deprecated integer schema version into an u64"@,
        ),
        SchemaValue::Text(text) => match parsed_semver(text@) {
            Ok(version) => if version.major == 1 && version.pre.len() == 0 {
                Ok(SchemaView::Semver(version))
            } else {
                Err(wrong_version_text(version))
            },
            Err(error) => Err(no_version_text(error)),
        },
        SchemaValue::Other => Err(
            "failed to read schema version into a &str. this is likely a bug you should report"@,
        ),
    }
}

/// Checks that a hive can be read.
pub fn check_schema_version(value: SchemaValue) -> (r: Result<SchemaVersion, String>)
    ensures
        match r {
            Ok(version) => schema_check(value) == Ok::<SchemaView, Seq<char>>(version@),
            Err(error) => schema_check(value) == Err::<SchemaView, Seq<char>>(error@),
        },
{
    match value {
        SchemaValue::Integer(number) => {
            if number != DEPRECATED_SCHEMA_VERSION {
                let mut error =
                    "your `makeHive` function can't be read (schema verison ".to_owned();
                error.push_str(decimal_of(number).as_str());
                error.push_str(", required ");
                error.push_str(decimal_of(DEPRECATED_SCHEMA_VERSION).as_str());
                error.push_str("). please upgrade it or downgrade this binary");
                return Err(error);
            }
            Ok(SchemaVersion::DeprecatedInteger(number))
        },
        SchemaValue::OtherNumber => Err(
            "failed to read deprecated integer schema version into an u64".to_owned(),
        ),
        SchemaValue::Text(text) => check_semver(text.as_str()),
        SchemaValue::Other => Err(
            "failed to read schema version into a &str. this is likely a bug you should report".to_owned(),
        ),
    }
}

fn check_semver(text: &str) -> (r: Result<SchemaVersion, String>)
    ensures
        match (parsed_semver(text@), r) {
            (Ok(version), Ok(schema)) => version.major == 1 && version.pre.len() == 0 && schema@
                == SchemaView::Semver(version),
            (Ok(version), Err(error)) => !(version.major == 1 && version.pre.len() == 0) && error@
                == wrong_version_text(version),
            (Err(cause), Err(error)) => error@ == no_version_text(cause),
            (Err(_), Ok(_)) => false,
        },
{
    let version = match parse_semver(text) {
        Ok(version) => version,
        Err(cause) => {
            let mut error =
                "failed to parse schema semver. this is likely a bug you should report: ".to_owned();
            error.push_str(cause.as_str());
            return Err(error);
        },
    };
    if !meets_requirement(schema_version_string().as_str(), text) {
        let mut error = "your `makeHive`'s version (".to_owned();
        error.push_str(version.to_string().as_str());
        error.push_str(") did not match ");
        error.push_str(schema_version_string().as_str());
        error.push_str(". please upgrade it or downgrade this binary");
        return Err(error);
    }
    Ok(SchemaVersion::Semver(version))
}

} // verus!
