//! Argument marshalling: builds the exact argument list the embedded
//! runtime is started with, optionally prepending the host process's own
//! invocation path as element zero.

use vstd::prelude::*;

verus! {

/// The argument list handed to the foreign start call, given the caller's
/// list, the auto-insertion flag, and the host process's own invocation
/// path: the path is prepended when insertion is enabled and the list does
/// not already start with it.
pub open spec fn marshalled_args(
    args: Seq<Seq<char>>,
    insert_default: bool,
    first_arg: Seq<char>,
) -> Seq<Seq<char>> {
    if insert_default && (args.len() == 0 || args[0] != first_arg) {
        seq![first_arg] + args
    } else {
        args
    }
}

/// With no caller-supplied arguments and insertion enabled, the marshalled
/// list is exactly the host process's own invocation path.
pub proof fn lemma_default_first_arg(first_arg: Seq<char>)
    ensures
        marshalled_args(Seq::<Seq<char>>::empty(), true, first_arg) =~= seq![first_arg],
        marshalled_args(Seq::<Seq<char>>::empty(), true, first_arg)[0] == first_arg,
{
}

/// Marshalling never reorders, drops or edits the caller's arguments: they
/// reappear in order at the tail of the marshalled list; and a list that
/// already starts with the process's own path passes through unchanged, so
/// marshalling the full host argument list is a round trip.
pub proof fn lemma_marshalling_preserves_args(
    args: Seq<Seq<char>>,
    insert_default: bool,
    first_arg: Seq<char>,
)
    ensures
        ({
            let m = marshalled_args(args, insert_default, first_arg);
            &&& args.len() <= m.len() <= args.len() + 1
            &&& (forall|i: int|
                0 <= i < args.len() ==> m[m.len() - args.len() + i] == args[i])
            &&& (args.len() > 0 && args[0] == first_arg ==> m == args)
            &&& !insert_default ==> m == args
        }),
{
}

/// Configuration for the arguments the embedded runtime is started with:
/// a caller-supplied list, and a flag controlling whether the host
/// process's own invocation path is auto-inserted as element zero.
#[derive(Debug, Clone)]
pub struct NodeArgs {
    args: Vec<String>,
    insert_default_process_arg: bool,
}

impl NodeArgs {
    /// The caller-supplied argument list.
    pub closed spec fn spec_args(&self) -> Seq<Seq<char>> {
        self.args.deep_view()
    }

    /// Whether the host process's own invocation path is auto-inserted.
    pub closed spec fn spec_insert_default(&self) -> bool {
        self.insert_default_process_arg
    }

    /// An empty argument list with auto-insertion enabled.
    pub fn new() -> (r: Self)
        ensures
            r.spec_args() == Seq::<Seq<char>>::empty(),
            r.spec_insert_default(),
    {
        let r = Self { args: Vec::new(), insert_default_process_arg: true };
        proof {
            assert(r.spec_args() =~= Seq::<Seq<char>>::empty());
        }
        r
    }

    /// Replaces the caller-supplied argument list.
    pub fn args(self, args: Vec<String>) -> (r: Self)
        ensures
            r.spec_args() == args.deep_view(),
            r.spec_insert_default() == self.spec_insert_default(),
    {
        Self { args, insert_default_process_arg: self.insert_default_process_arg }
    }

    /// Sets whether the host process's own invocation path is auto-inserted.
    pub fn insert_default_process_arg(self, insert_default_process_arg: bool) -> (r: Self)
        ensures
            r.spec_args() == self.spec_args(),
            r.spec_insert_default() == insert_default_process_arg,
    {
        Self { args: self.args, insert_default_process_arg }
    }

    /// Produces the exact argument list the runtime should see, given the
    /// host process's own invocation path (element zero of the host's
    /// argument list).
    pub fn get_args(&self, first_arg: String) -> (r: Vec<String>)
        ensures
            r.deep_view() == marshalled_args(
                self.spec_args(),
                self.spec_insert_default(),
                first_arg@,
            ),
    {
        let ghost old_args = self.args.deep_view();
        let mut args: Vec<String> = Vec::new();
        let mut i: usize = 0;
        while i < self.args.len()
            invariant
                i <= self.args.len(),
                args.len() == i,
                old_args == self.args.deep_view(),
                forall|j: int| 0 <= j < i ==> args.deep_view()[j] == old_args[j],
            decreases self.args.len() - i,
        {
            args.push(self.args[i].clone());
            i += 1;
        }
        proof {
            assert(args.deep_view() =~= old_args);
        }
        if (args.len() == 0 || !string_eq(&args[0], &first_arg)) && self.insert_default_process_arg
        {
            args.insert(0, first_arg);
            proof {
                assert(args.deep_view() =~= seq![first_arg@] + old_args);
            }
        }
        args
    }
}

impl Default for NodeArgs {
    /// Same as [`NodeArgs::new`].
    fn default() -> (r: Self)
        ensures
            r.spec_args() == Seq::<Seq<char>>::empty(),
            r.spec_insert_default(),
    {
        Self::new()
    }
}

/// Whether two strings hold the same characters.
fn string_eq(a: &String, b: &String) -> (r: bool)
    ensures
        r == (a@ == b@),
{
    a.eq(b)
}

} // verus!
