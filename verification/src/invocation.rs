//! The command line with which the script runtime is started.
use vstd::prelude::*;
use vstd::string::*;
use crate::permissions::{PermissionModel, RunnerPermissions, lemma_texts_push, permission_flags, permission_model, rendered_flags};

verus! {

/// The arguments that come before everything else: run a script, and never
/// stop to ask for a permission.
pub open spec fn base_arguments() -> Seq<Seq<char>> {
    seq!["run"@, "--no-prompt"@]
}

/// The script's own arguments, set off by a separator. Without arguments
/// there is no separator either.
pub open spec fn script_arguments(args: Seq<Seq<char>>) -> Seq<Seq<char>> {
    if args.len() > 0 {
        seq!["--"@] + args
    } else {
        Seq::empty()
    }
}

/// The whole command line: the base arguments, the permission flags, the
/// script, and the script's arguments as they were given.
pub open spec fn invocation(
    script: Seq<char>,
    args: Seq<Seq<char>>,
    permissions: Option<PermissionModel>,
) -> Seq<Seq<char>> {
    base_arguments() + rendered_flags(permissions) + seq![script] + script_arguments(args)
}

/// Builds the command line for one run.
pub fn build_invocation(
    script: String,
    args: Vec<String>,
    permissions: &Option<RunnerPermissions>,
) -> (line: Vec<String>)
    ensures
        line.deep_view() == invocation(script@, args.deep_view(), permission_model(*permissions)),
{
    let mut line: Vec<String> = Vec::new();
    let run = String::from_str("run");
    let no_prompt = String::from_str("--no-prompt");
    line.push(run);
    line.push(no_prompt);
    assert(line.deep_view() =~= base_arguments());
    let mut flags = permission_flags(permissions);
    let ghost flag_texts = flags.deep_view();
    let ghost before = line;
    line.append(&mut flags);
    assert(line.deep_view() =~= before.deep_view() + flag_texts);
    let ghost before = line;
    line.push(script);
    proof {
        lemma_texts_push(before, line, script);
    }
    let ghost head = line.deep_view();
    assert(head =~= base_arguments() + rendered_flags(permission_model(*permissions)) + seq![
        script@,
    ]);
    if args.len() > 0 {
        let ghost before = line;
        let separator = String::from_str("--");
        line.push(separator);
        proof {
            lemma_texts_push(before, line, separator);
        }
        let ghost before = line;
        let mut rest = args;
        line.append(&mut rest);
        assert(line.deep_view() =~= before.deep_view() + args.deep_view());
        assert(line.deep_view() =~= head + (seq!["--"@] + args.deep_view()));
    } else {
        assert(args.deep_view() =~= Seq::<Seq<char>>::empty());
        assert(line.deep_view() =~= head + Seq::<Seq<char>>::empty());
    }
    line
}

} // verus!
