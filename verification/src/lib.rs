//! Shorthand rewriting for a `git` front end.
//!
//! An invocation's first token is taken as a compressed subcommand name
//! marked by a leading `t` (`tstatus` for `status`, bare `t` for no
//! subcommand at all). The library validates a raw token sequence,
//! strips the marker, and builds the advisory text announcing the
//! equivalent `git` command line; running the child process itself is
//! left to the binary around the library.

use vstd::prelude::*;

verus! {

/// The failure kinds of a single invocation. All are terminal: the
/// invocation stops, nothing is retried.
#[derive(Debug, Clone, PartialEq, Eq, Structural)]
pub enum GiError {
    /// The first argument does not begin with a `t`.
    BadPrefix,

    /// Spawning the `git` child process failed.
    GitFail,

    /// No arguments were passed at all.
    NoArgs,

    /// Resetting the stdout terminal color failed.
    StdoutReset,

    /// Setting the stdout terminal color failed.
    StdoutSet,
}

/// A token sequence is a valid shorthand invocation when it is
/// non-empty and its first token begins with the marker `t`.
pub open spec fn valid_shorthand(args: Seq<Seq<char>>) -> bool {
    args.len() > 0 && args[0].len() > 0 && args[0][0] == 't'
}

/// The delegated argument list of a valid shorthand invocation: one
/// leading `t` is stripped from the first token; if nothing remains of
/// that token it is dropped entirely; every later token is kept in
/// order, unchanged.
pub open spec fn delegated_args(args: Seq<Seq<char>>) -> Seq<Seq<char>>
    recommends
        valid_shorthand(args),
{
    if args[0].len() <= 1 {
        args.drop_first()
    } else {
        seq![args[0].skip(1)] + args.drop_first()
    }
}

/// For any valid shorthand invocation, delegation drops exactly one
/// token when the first token is the bare marker and keeps the count
/// otherwise; and every token after the first reappears in order,
/// unchanged.
pub proof fn lemma_delegation_shape(args: Seq<Seq<char>>)
    requires
        valid_shorthand(args),
    ensures
        args[0].len() == 1 ==> delegated_args(args).len() == args.len() - 1,
        args[0].len() > 1 ==> delegated_args(args).len() == args.len(),
        args[0].len() == 1 ==> forall|i: int|
            1 <= i < args.len() ==> delegated_args(args)[i - 1] == args[i],
        args[0].len() > 1 ==> forall|i: int|
            1 <= i < args.len() ==> delegated_args(args)[i] == args[i],
{
}

/// Rewrites the raw argument list (everything after the program name)
/// into the argument list that `git` should receive.
///
/// The empty sequence is refused with [`GiError::NoArgs`]; a first
/// token that does not begin with `t` is refused with
/// [`GiError::BadPrefix`]; every other sequence is rewritten to its
/// delegated argument list.
pub fn transform_args(args: Vec<String>) -> (r: Result<Vec<String>, GiError>)
    ensures
        args@.len() == 0 ==> r == Err::<Vec<String>, GiError>(GiError::NoArgs),
        args@.len() > 0 && !valid_shorthand(args.deep_view()) ==> r == Err::<
            Vec<String>,
            GiError,
        >(GiError::BadPrefix),
        valid_shorthand(args.deep_view()) ==> (r matches Ok(out) && out.deep_view()
            == delegated_args(args.deep_view())),
{
    let ghost dv0: Seq<Seq<char>> = args.deep_view();
    let mut args = args;
    if args.len() == 0 {
        return Err(GiError::NoArgs);
    }
    let n = args[0].as_str().unicode_len();
    if n == 0 || args[0].as_str().get_char(0) != 't' {
        return Err(GiError::BadPrefix);
    }
    let first = args.remove(0);
    if n > 1 {
        let rest = first.as_str().substring_char(1, n).to_owned();
        args.insert(0, rest);
        proof {
            assert(args.deep_view() =~~= delegated_args(dv0));
        }
    } else {
        proof {
            assert(args.deep_view() =~~= delegated_args(dv0));
        }
    }
    Ok(args)
}

/// The report printed for each failure kind.
pub open spec fn error_text(e: GiError) -> Seq<char> {
    match e {
        GiError::BadPrefix => "Argument does not start with a `t`!"@,
        GiError::GitFail => "Failed to run git!"@,
        GiError::NoArgs => "No arguments provided!"@,
        GiError::StdoutReset => "Unable to reset stdout color!"@,
        GiError::StdoutSet => "Unable to set stdout color!,"@,
    }
}

impl GiError {
    /// The human-readable message for this failure kind.
    pub fn message(&self) -> (r: &'static str)
        ensures
            r@ == error_text(*self),
    {
        match self {
            GiError::BadPrefix => "Argument does not start with a `t`!",
            GiError::GitFail => "Failed to run git!",
            GiError::NoArgs => "No arguments provided!",
            GiError::StdoutReset => "Unable to reset stdout color!",
            GiError::StdoutSet => "Unable to set stdout color!,",
        }
    }
}

/// The tokens of `args` joined with single spaces: empty for no
/// tokens, with no leading or trailing space otherwise.
pub open spec fn joined(args: Seq<Seq<char>>) -> Seq<char>
    decreases args.len(),
{
    if args.len() == 0 {
        Seq::empty()
    } else if args.len() == 1 {
        args[0]
    } else {
        joined(args.drop_last()) + seq![' '] + args.last()
    }
}

/// Joins the tokens with single spaces, as the announcement line
/// shows them.
pub fn join_args(args: &Vec<String>) -> (r: String)
    ensures
        r@ == joined(args.deep_view()),
{
    let ghost dv: Seq<Seq<char>> = args.deep_view();
    let mut r = String::new();
    let mut i: usize = 0;
    while i < args.len()
        invariant
            i <= args.len(),
            dv == args.deep_view(),
            r@ == joined(dv.take(i as int)),
        decreases args.len() - i,
    {
        if i > 0 {
            r.append(" ");
        }
        r.append(args[i].as_str());
        proof {
            reveal_strlit(" ");
            assert(dv.take(i + 1).drop_last() =~= dv.take(i as int));
            assert(r@ =~= joined(dv.take(i + 1)));
        }
        i = i + 1;
    }
    proof {
        assert(dv.take(args.len() as int) =~= dv);
    }
    r
}

/// The advisory line announcing the delegation: the tokens as typed
/// after the program name, and the equivalent full `git` invocation,
/// with no trailing argument text when the delegated list is empty.
pub open spec fn announcement_text(
    original: Seq<Seq<char>>,
    delegated: Seq<Seq<char>>,
) -> Seq<char> {
    "Correcting `gi "@ + joined(original) + "` to `git"@ + (if delegated.len() == 0 {
        Seq::<char>::empty()
    } else {
        seq![' '] + joined(delegated)
    }) + "`..."@
}

/// Builds the advisory line that is shown, in the console's advisory
/// color, before the `git` child process is spawned.
pub fn announcement(original: &Vec<String>, delegated: &Vec<String>) -> (r: String)
    ensures
        r@ == announcement_text(original.deep_view(), delegated.deep_view()),
{
    let mut r = String::new();
    r.append("Correcting `gi ");
    let orig_joined = join_args(original);
    r.append(orig_joined.as_str());
    r.append("` to `git");
    if delegated.len() > 0 {
        r.append(" ");
        let del_joined = join_args(delegated);
        r.append(del_joined.as_str());
    }
    r.append("`...");
    proof {
        reveal_strlit(" ");
        assert(r@ =~= announcement_text(original.deep_view(), delegated.deep_view()));
    }
    r
}

} // verus!
