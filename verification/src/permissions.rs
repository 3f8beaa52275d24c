//! Sandbox permissions of a run and the command-line flags that grant them.
use vstd::prelude::*;
use vstd::string::*;

verus! {

/// What a run is allowed to do. Each capability is denied unless its field is
/// present; a present scope is handed to the runtime as it is written.
#[derive(Clone, Debug, PartialEq, Eq)]
pub struct RunnerPermissions {
    /// Network access, with the hosts it is limited to.
    pub allow_net: Option<String>,
    /// Filesystem reads, with the paths they are limited to.
    pub allow_read: Option<String>,
    /// Filesystem writes, with the paths they are limited to.
    pub allow_write: Option<String>,
    /// Access to environment variables.
    pub allow_env: Option<bool>,
    /// Spawning of subprocesses, with the programs it is limited to.
    pub allow_run: Option<String>,
}

/// The mathematical content of a [`RunnerPermissions`].
pub ghost struct PermissionModel {
    pub net: Option<Seq<char>>,
    pub read: Option<Seq<char>>,
    pub write: Option<Seq<char>>,
    pub env: bool,
    pub run: Option<Seq<char>>,
}

/// The text of an optional string.
pub open spec fn scope_text(scope: Option<String>) -> Option<Seq<char>> {
    match scope {
        Some(s) => Some(s@),
        None => None,
    }
}

impl View for RunnerPermissions {
    type V = PermissionModel;

    open spec fn view(&self) -> PermissionModel {
        PermissionModel {
            net: scope_text(self.allow_net),
            read: scope_text(self.allow_read),
            write: scope_text(self.allow_write),
            env: self.allow_env == Some(true),
            run: scope_text(self.allow_run),
        }
    }
}

/// The model of an optional permission request.
pub open spec fn permission_model(permissions: Option<RunnerPermissions>) -> Option<PermissionModel> {
    match permissions {
        Some(p) => Some(p@),
        None => None,
    }
}

/// The flag of a capability that takes a scope: the flag's name followed by
/// the scope when the capability is granted, nothing when it is denied.
pub open spec fn scoped_flag(name: Seq<char>, scope: Option<Seq<char>>) -> Seq<Seq<char>> {
    match scope {
        Some(s) => seq![name + s],
        None => Seq::empty(),
    }
}

/// The flag of a capability without a scope.
pub open spec fn plain_flag(name: Seq<char>, granted: bool) -> Seq<Seq<char>> {
    if granted {
        seq![name]
    } else {
        Seq::empty()
    }
}

/// The flags that grant exactly the capabilities of `permissions`, in the
/// fixed order network, read, write, environment, subprocess. No request at
/// all grants nothing.
pub open spec fn rendered_flags(permissions: Option<PermissionModel>) -> Seq<Seq<char>> {
    match permissions {
        None => Seq::empty(),
        Some(p) => scoped_flag("--allow-net="@, p.net) + scoped_flag("--allow-read="@, p.read)
            + scoped_flag("--allow-write="@, p.write) + plain_flag("--allow-env"@, p.env)
            + scoped_flag("--allow-run="@, p.run),
    }
}

/// Appending one string to a vector appends its text to the vector's texts.
pub(crate) proof fn lemma_texts_push(before: Vec<String>, after: Vec<String>, s: String)
    requires
        after@ == before@.push(s),
    ensures
        after.deep_view() == before.deep_view().push(s@),
{
    assert(after.deep_view() =~= before.deep_view().push(s@));
}

fn push_scoped(flags: &mut Vec<String>, name: &str, scope: &Option<String>)
    ensures
        final(flags).deep_view() == old(flags).deep_view() + scoped_flag(name@, scope_text(*scope)),
{
    match scope {
        Some(s) => {
            let mut flag = String::from_str(name);
            flag.append(s.as_str());
            let ghost before = *flags;
            flags.push(flag);
            proof {
                lemma_texts_push(before, *flags, flag);
                assert(before.deep_view().push(flag@) =~= before.deep_view() + seq![name@ + s@]);
            }
        },
        None => {
            assert(flags.deep_view() + Seq::<Seq<char>>::empty() =~= flags.deep_view());
        },
    }
}

/// Renders a permission request as the runtime's command-line flags.
pub fn permission_flags(permissions: &Option<RunnerPermissions>) -> (flags: Vec<String>)
    ensures
        flags.deep_view() == rendered_flags(permission_model(*permissions)),
{
    let mut flags: Vec<String> = Vec::new();
    assert(flags.deep_view() =~= Seq::<Seq<char>>::empty());
    match permissions {
        Some(p) => {
            push_scoped(&mut flags, "--allow-net=", &p.allow_net);
            push_scoped(&mut flags, "--allow-read=", &p.allow_read);
            push_scoped(&mut flags, "--allow-write=", &p.allow_write);
            let ghost before = flags;
            let env = match p.allow_env {
                Some(granted) => granted,
                None => false,
            };
            if env {
                let flag = String::from_str("--allow-env");
                flags.push(flag);
                proof {
                    lemma_texts_push(before, flags, flag);
                }
            }
            assert(flags.deep_view() =~= before.deep_view() + plain_flag("--allow-env"@, p@.env));
            push_scoped(&mut flags, "--allow-run=", &p.allow_run);
            assert(flags.deep_view() =~= rendered_flags(Some(p@)));
        },
        None => {},
    }
    flags
}

} // verus!
