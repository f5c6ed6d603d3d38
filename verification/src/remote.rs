//! Remote sync: where a push goes and which credentials are offered.

use crate::text::to_chars;
use vstd::prelude::*;

verus! {

/// What the repository says of the upstream of the current branch.
#[derive(Debug, Clone, PartialEq, Eq)]
pub enum Upstream {
    /// No upstream is configured.
    Missing,
    /// An upstream is configured, but its name cannot be given as text.
    Unnamed,
    /// An upstream is configured under this name, such as `origin/main`.
    Named(String),
}

/// Where a push goes.
#[derive(Debug, Clone, PartialEq, Eq)]
pub struct PushTarget {
    /// Name of the remote.
    pub remote: String,
    /// Name of the branch on the remote.
    pub branch: String,
    /// The rule handed to the push.
    pub refspec: String,
}

/// Branch pushed where the head has no short name.
pub open spec fn fallback_branch() -> Seq<char> {
    "main"@
}

/// Remote pushed to where the branch has no upstream.
pub open spec fn fallback_remote() -> Seq<char> {
    "origin"@
}

/// Upstream assumed where the configured one has no name as text.
pub open spec fn fallback_upstream() -> Seq<char> {
    "origin/main"@
}

/// Whether `k` is the place of the first `/` of `s`.
pub open spec fn is_first_slash(s: Seq<char>, k: int) -> bool {
    &&& 0 <= k < s.len()
    &&& s[k] == '/'
    &&& forall|j: int| 0 <= j < k ==> s[j] != '/'
}

/// The place of the first `/` of `s`; the length of `s` where it has none.
pub open spec fn first_slash(s: Seq<char>) -> int {
    if exists|k: int| is_first_slash(s, k) {
        choose|k: int| is_first_slash(s, k)
    } else {
        s.len() as int
    }
}

/// The local branch: the short name of the head, or the fallback.
pub open spec fn local_branch(head: Option<Seq<char>>) -> Seq<char> {
    match head {
        Some(name) => name,
        None => fallback_branch(),
    }
}

/// The remote that an upstream name stands for: what comes before its
/// first `/`, or all of it.
pub open spec fn remote_of(upstream: Seq<char>) -> Seq<char> {
    upstream.take(first_slash(upstream))
}

/// The branch that an upstream name stands for: what comes after its first
/// `/`; `local` where it holds none.
pub open spec fn branch_of(upstream: Seq<char>, local: Seq<char>) -> Seq<char> {
    if first_slash(upstream) < upstream.len() {
        upstream.skip(first_slash(upstream) + 1)
    } else {
        local
    }
}

/// The rule that pushes the branch `branch` to the branch of the same name.
pub open spec fn refspec_for(branch: Seq<char>) -> Seq<char> {
    "refs/heads/"@ + branch + ":refs/heads/"@ + branch
}

impl Upstream {
    /// The name to go by, if an upstream is configured.
    pub open spec fn name(self) -> Option<Seq<char>> {
        match self {
            Upstream::Missing => None,
            Upstream::Unnamed => Some(fallback_upstream()),
            Upstream::Named(name) => Some(name@),
        }
    }
}

/// The remote to push to.
pub open spec fn target_remote(upstream: Upstream) -> Seq<char> {
    match upstream.name() {
        Some(name) => remote_of(name),
        None => fallback_remote(),
    }
}

/// The branch to push to.
pub open spec fn target_branch(head: Option<Seq<char>>, upstream: Upstream) -> Seq<char> {
    match upstream.name() {
        Some(name) => branch_of(name, local_branch(head)),
        None => local_branch(head),
    }
}

proof fn first_slash_is(s: Seq<char>, k: int)
    requires
        is_first_slash(s, k),
    ensures
        first_slash(s) == k,
{
    let c = choose|c: int| is_first_slash(s, c);
    if c < k {
        assert(s[c] != '/');
    } else if k < c {
        assert(s[k] != '/');
    }
}

proof fn first_slash_none(s: Seq<char>)
    requires
        forall|j: int| 0 <= j < s.len() ==> s[j] != '/',
    ensures
        first_slash(s) == s.len(),
{
}

fn find_first_slash(chars: &Vec<char>) -> (k: usize)
    ensures
        k == first_slash(chars@),
        k <= chars.len(),
{
    let mut k: usize = 0;
    while k < chars.len()
        invariant
            k <= chars.len(),
            forall|j: int| 0 <= j < k ==> chars@[j] != '/',
        decreases chars.len() - k,
    {
        if chars[k] == '/' {
            proof {
                first_slash_is(chars@, k as int);
            }
            return k;
        }
        k += 1;
    }
    proof {
        first_slash_none(chars@);
    }
    k
}

/// Splits the name of an upstream into remote and branch.
fn split_upstream(name: &str, local: &str) -> (parts: (String, String))
    ensures
        parts.0@ == remote_of(name@),
        parts.1@ == branch_of(name@, local@),
{
    let chars = to_chars(name);
    let k = find_first_slash(&chars);
    let remote = String::from_str(name.substring_char(0, k));
    assert(name@.subrange(0, k as int) =~= name@.take(k as int));
    if k < chars.len() {
        let branch = String::from_str(name.substring_char(k + 1, chars.len()));
        assert(name@.subrange(k + 1, name@.len() as int) =~= name@.skip(k + 1));
        (remote, branch)
    } else {
        (remote, String::from_str(local))
    }
}

fn make_refspec(branch: &str) -> (refspec: String)
    ensures
        refspec@ == refspec_for(branch@),
{
    let mut refspec = String::from_str("refs/heads/");
    refspec.append(branch);
    refspec.append(":refs/heads/");
    refspec.append(branch);
    refspec
}

/// Resolves where to push, from the short name of the head (`None` where it
/// has none) and the upstream of the current branch.
pub fn push_target(head: Option<&str>, upstream: &Upstream) -> (target: PushTarget)
    ensures
        target.remote@ == target_remote(*upstream),
        target.branch@ == target_branch(
            match head {
                Some(name) => Some(name@),
                None => None,
            },
            *upstream,
        ),
        target.refspec@ == refspec_for(target.branch@),
{
    let local = match head {
        Some(name) => name,
        None => "main",
    };
    let (remote, branch) = match upstream {
        Upstream::Missing => (String::from_str("origin"), String::from_str(local)),
        Upstream::Unnamed => split_upstream("origin/main", local),
        Upstream::Named(name) => split_upstream(name.as_str(), local),
    };
    let refspec = make_refspec(branch.as_str());
    PushTarget { remote, branch, refspec }
}

/// The kinds of credential that the server says it accepts.
#[derive(Debug, Clone, Copy, PartialEq, Eq, Structural)]
pub struct CredentialTypes {
    /// Public-key authentication over SSH.
    pub ssh_key: bool,
    /// User name and password in plain text.
    pub user_pass_plaintext: bool,
}

/// A way to come by a credential.
#[derive(Debug, Clone, Copy, PartialEq, Eq, Structural)]
pub enum CredentialMethod {
    /// The default SSH key under the user's home directory.
    SshKey,
    /// The system's credential helper.
    CredentialHelper,
    /// The default, anonymous credential.
    Default,
}

/// The methods to try for a server that accepts `allowed`, in order.
pub open spec fn credential_order(allowed: CredentialTypes) -> Seq<CredentialMethod> {
    (if allowed.ssh_key {
        seq![CredentialMethod::SshKey]
    } else {
        Seq::empty()
    }) + (if allowed.user_pass_plaintext {
        seq![CredentialMethod::CredentialHelper]
    } else {
        Seq::empty()
    }) + seq![CredentialMethod::Default]
}

/// The methods to try for a server that accepts `allowed`, in order: the
/// first that yields a credential is used.
pub fn credential_chain(allowed: CredentialTypes) -> (chain: Vec<CredentialMethod>)
    ensures
        chain@ == credential_order(allowed),
{
    let mut chain: Vec<CredentialMethod> = Vec::new();
    if allowed.ssh_key {
        chain.push(CredentialMethod::SshKey);
    }
    if allowed.user_pass_plaintext {
        chain.push(CredentialMethod::CredentialHelper);
    }
    chain.push(CredentialMethod::Default);
    assert(chain@ =~= credential_order(allowed));
    chain
}

/// The user to authenticate as over SSH: the one named in the URL, else
/// `git`.
pub fn ssh_username(from_url: Option<&str>) -> (user: String)
    ensures
        user@ == match from_url {
            Some(name) => name@,
            None => "git"@,
        },
{
    match from_url {
        Some(name) => String::from_str(name),
        None => String::from_str("git"),
    }
}

/// The default private key: `.ssh/id_ed25519` under the home directory,
/// which is taken as `/root` where it is not known.
pub fn ssh_key_path(home: Option<&str>) -> (path: String)
    ensures
        path@ == (match home {
            Some(dir) => dir@,
            None => "/root"@,
        }) + "/.ssh/id_ed25519"@,
{
    let mut path = match home {
        Some(dir) => String::from_str(dir),
        None => String::from_str("/root"),
    };
    path.append("/.ssh/id_ed25519");
    path
}

/// What to log for one ref of a push: a notice where the remote rejected
/// the update, nothing where it took it.
pub fn rejection_notice(ref_name: &str, status: Option<&str>) -> (notice: Option<String>)
    ensures
        match status {
            Some(why) => notice is Some && notice->0@ == "Failed to push ref: "@ + ref_name@
                + ". Status: "@ + why@,
            None => notice is None,
        },
{
    match status {
        Some(why) => {
            let mut notice = String::from_str("Failed to push ref: ");
            notice.append(ref_name);
            notice.append(". Status: ");
            notice.append(why);
            Some(notice)
        },
        None => None,
    }
}

} // verus!
