//! Command lines, built argument by argument.
use crate::text::{trim, trimmed};
use vstd::prelude::*;

verus! {

/// A command line under construction.
#[derive(Debug)]
pub struct CommandStringBuilder {
    command: String,
}

/// The command line after the arguments, each trimmed and after one space, were added.
pub open spec fn with_args(command: Seq<char>, arguments: Seq<Seq<char>>) -> Seq<char>
    decreases arguments.len(),
{
    if arguments.len() == 0 {
        command
    } else {
        with_args(command, arguments.drop_last()) + " "@ + trimmed(arguments.last())
    }
}

/// The texts of a slice of string slices.
pub open spec fn slice_texts(v: Seq<&str>) -> Seq<Seq<char>> {
    v.map_values(|s: &str| s@)
}

impl View for CommandStringBuilder {
    type V = Seq<char>;

    closed spec fn view(&self) -> Seq<char> {
        self.command@
    }
}

impl CommandStringBuilder {
    /// A call of `nix`.
    pub fn nix() -> (r: Self)
        ensures
            r@ == "nix"@,
    {
        CommandStringBuilder { command: "nix".to_owned() }
    }

    /// A command line that starts with `s`, trimmed.
    pub fn new(s: &str) -> (r: Self)
        ensures
            r@ == trimmed(s@),
    {
        CommandStringBuilder { command: trim(s) }
    }

    /// Appends a text as it is.
    pub fn literal(&mut self, literal_string: &str)
        ensures
            final(self)@ == old(self)@ + literal_string@,
    {
        self.command.push_str(literal_string);
    }

    /// Appends a space and the argument, trimmed.
    pub fn arg(&mut self, argument: &str)
        ensures
            final(self)@ == with_args(old(self)@, seq![argument@]),
    {
        let ghost before = self.command@;
        let argument_trimmed = trim(argument);
        self.command.push(' ');
        self.literal(argument_trimmed.as_str());
        proof {
            reveal_strlit(" ");
            reveal_with_fuel(with_args, 2);
            assert(seq![argument@].drop_last() =~= Seq::empty());
            assert(before.push(' ') =~= before + " "@);
        }
    }

    /// Appends the argument where `opt` holds.
    pub fn opt_arg(&mut self, opt: bool, argument: &str)
        ensures
            final(self)@ == if opt {
                with_args(old(self)@, seq![argument@])
            } else {
                old(self)@
            },
    {
        if !opt {
            return ;
        }
        self.arg(argument);
    }

    /// Appends each argument in turn.
    pub fn args(&mut self, arguments: &[&str])
        ensures
            final(self)@ == with_args(old(self)@, slice_texts(arguments@)),
    {
        let ghost all = slice_texts(arguments@);
        let ghost before = self@;
        let len: usize = arguments.len();
        for i in 0..len
            invariant
                len == arguments@.len(),
                all == slice_texts(arguments@),
                self@ == with_args(before, all.take(i as int)),
        {
            let ghost prefix = all.take(i + 1);
            self.arg(arguments[i]);
            proof {
                reveal_with_fuel(with_args, 2);
                assert(prefix.drop_last() =~= all.take(i as int));
                assert(seq![arguments@[i as int]@].drop_last() =~= Seq::empty());
            }
        }
        assert(all.take(len as int) =~= all);
    }

    /// The command line as text.
    pub fn to_string(&self) -> (s: String)
        ensures
            s@ == self@,
    {
        self.command.clone()
    }

    /// The command line as a slice.
    pub fn as_str(&self) -> (s: &str)
        ensures
            s@ == self@,
    {
        self.command.as_str()
    }
}

impl AsRef<str> for CommandStringBuilder {
    fn as_ref(&self) -> (s: &str)
        ensures
            s@ == self@,
    {
        self.command.as_str()
    }
}

/// Adding two lists of arguments one after the other is adding both at once.
pub proof fn with_args_appends(command: Seq<char>, first: Seq<Seq<char>>, second: Seq<Seq<char>>)
    ensures
        with_args(with_args(command, first), second) == with_args(command, first + second),
    decreases second.len(),
{
    if second.len() == 0 {
        assert(first + second =~= first);
    } else {
        with_args_appends(command, first, second.drop_last());
        assert((first + second).drop_last() =~= first + second.drop_last());
    }
}

} // verus!
