//! Where the agent keeps its state: a directory of its own under the
//! user's home directory, or under the current directory where the host
//! knows no home.

use crate::text::{has_infix, is_segment, last_char, occurs_at};
use vstd::prelude::*;

verus! {

/// The name of the agent.
pub const AGENT_NAME: &'static str = "zeroclaw";

/// The name of the agent's directory: the agent's name behind a dot.
pub open spec fn agent_dir() -> Seq<char> {
    seq!['.'] + AGENT_NAME@
}

/// The directory in which the agent's directory lies: the home directory,
/// or the current directory where there is none.
pub open spec fn storage_parent(home: Option<Seq<char>>) -> Seq<char> {
    match home {
        Some(dir) => if dir.len() > 0 {
            dir
        } else {
            seq!['.']
        },
        None => seq!['.'],
    }
}

/// The agent's directory for a host whose home directory is `home`:
/// `<home>/.zeroclaw`, and `./.zeroclaw` where the host knows no home. A
/// home directory that ends in `/` gets no second separator.
pub open spec fn storage_root_for(home: Option<Seq<char>>) -> Seq<char> {
    let parent = storage_parent(home);
    if parent.last() == '/' {
        parent + agent_dir()
    } else {
        parent + seq!['/'] + agent_dir()
    }
}

/// `root` is the agent's directory of some host.
pub open spec fn is_storage_root(root: Seq<char>) -> bool {
    exists|home: Option<Seq<char>>| root == #[trigger] storage_root_for(home)
}

/// `name` is the last of the `/`-separated components of `path`.
pub open spec fn is_last_component(path: Seq<char>, name: Seq<char>) -> bool {
    &&& name.len() <= path.len()
    &&& is_segment(path, path.len() - name.len(), path.len() as int)
    &&& path.subrange(path.len() - name.len(), path.len() as int) == name
}

/// A home directory as plain values.
pub open spec fn home_view(home: Option<&str>) -> Option<Seq<char>> {
    match home {
        Some(dir) => Some(dir@),
        None => None,
    }
}

/// Whatever the host says of the home directory, the agent's directory
/// holds the agent's name: its last component is that name behind a dot.
pub proof fn lemma_storage_root_names_agent(home: Option<Seq<char>>)
    ensures
        is_last_component(storage_root_for(home), agent_dir()),
        has_infix(storage_root_for(home), AGENT_NAME@),
{
    reveal_strlit("zeroclaw");
    let root = storage_root_for(home);
    let name = agent_dir();
    let parent = storage_parent(home);
    assert(name.len() == 9);
    assert(forall|k: int| 0 <= k < name.len() ==> name[k] != '/');
    assert(parent.len() > 0);
    let start = root.len() - name.len();
    assert(root.subrange(start, root.len() as int) =~= name);
    assert(root[start - 1] == '/');
    assert forall|k: int| start <= k < root.len() implies root[k] != '/' by {
        assert(root[k] == name[k - start]);
    }
    assert(root.subrange(start + 1, start + 1 + AGENT_NAME@.len()) =~= AGENT_NAME@);
    assert(occurs_at(root, AGENT_NAME@, start + 1));
}

/// What a host answers when it is asked for the home directory of the
/// current user.
#[derive(Debug, Clone, PartialEq, Eq)]
pub enum HomeLookup {
    /// The home directory, as text.
    Found(String),
    /// There is a home directory, but its name is not Unicode text.
    NotText,
    /// The host knows no home directory.
    Missing,
}

/// The home directory that the agent's directory is resolved from, for
/// each answer of the host. The library names directories as text, so a
/// home directory whose name is not text counts as none.
pub open spec fn usable_home(lookup: HomeLookup) -> Option<Seq<char>> {
    match lookup {
        HomeLookup::Found(dir) => Some(dir@),
        HomeLookup::NotText => None,
        HomeLookup::Missing => None,
    }
}

/// Asks `directories::BaseDirs::new()` for the directories of the current
/// user and hands back its `home_dir()`: as text where `Path::to_str` gives
/// it, and else the fact that it is no text. The call looks at the
/// environment and the user database and reads no file. What comes back
/// depends on the host, so nothing is claimed of it.
#[verifier::external_body]
fn lookup_home_dir() -> (home: HomeLookup) {
    match directories::BaseDirs::new() {
        Some(dirs) => match dirs.home_dir().to_str() {
            Some(text) => HomeLookup::Found(text.to_owned()),
            None => HomeLookup::NotText,
        },
        None => HomeLookup::Missing,
    }
}

/// The agent's directory for a host whose home directory is `home`.
///
/// With a home directory it is `<home>/.zeroclaw`; without one, or with
/// an empty one, it is `./.zeroclaw`, so that there is always a directory
/// to name.
pub fn resolve_storage_root(home: Option<&str>) -> (root: String)
    ensures
        root@ == storage_root_for(home_view(home)),
{
    proof {
        reveal_strlit(".");
        reveal_strlit("/");
    }
    let parent: &str = match home {
        Some(dir) => if dir.is_empty() {
            "."
        } else {
            dir
        },
        None => ".",
    };
    assert(parent@ =~= storage_parent(home_view(home)));
    let mut root = String::from_str(parent);
    match last_char(parent) {
        Some('/') => {},
        _ => {
            root.append("/");
        },
    }
    root.append(".");
    root.append(AGENT_NAME);
    assert(root@ =~= storage_root_for(home_view(home)));
    root
}

/// The agent's directory for what a host answered when it was asked for
/// the home directory: under that directory where it is text, and under the
/// current directory where it is not, or where there is none.
pub fn storage_root_of(lookup: &HomeLookup) -> (root: String)
    ensures
        root@ == storage_root_for(usable_home(*lookup)),
{
    match lookup {
        HomeLookup::Found(dir) => resolve_storage_root(Some(dir.as_str())),
        HomeLookup::NotText => resolve_storage_root(None),
        HomeLookup::Missing => resolve_storage_root(None),
    }
}

/// The agent's directory on this host: the host is asked for the home
/// directory of the current user, and the directory is resolved from the
/// answer.
pub fn host_storage_root() -> (root: String)
    ensures
        is_storage_root(root@),
{
    let lookup = lookup_home_dir();
    storage_root_of(&lookup)
}

} // verus!
