use vstd::prelude::*;

verus! {

// ---------------------------------------------------------------------------
// Data model
// ---------------------------------------------------------------------------

/// Status of one monitored working tree. All counts are non-negative;
/// `branch` holds the short branch name or a sentinel when HEAD is
/// detached or unborn.
#[derive(Debug)]
pub struct RepoStatus {
    pub name: String,
    pub branch: String,
    pub modified: usize,
    pub staged: usize,
    pub untracked: usize,
    pub ahead: usize,
    pub behind: usize,
}

impl Clone for RepoStatus {
    fn clone(&self) -> (r: RepoStatus)
        ensures
            r == *self,
    {
        RepoStatus {
            name: self.name.clone(),
            branch: self.branch.clone(),
            modified: self.modified,
            staged: self.staged,
            untracked: self.untracked,
            ahead: self.ahead,
            behind: self.behind,
        }
    }
}

/// One repository-set observation: an entry per configured path that
/// resolved to a repository, in configuration order.
#[derive(Debug)]
pub struct GitSnapshot {
    pub repos: Vec<RepoStatus>,
}

impl Default for GitSnapshot {
    fn default() -> (s: GitSnapshot)
        ensures
            s.repos@.len() == 0,
    {
        GitSnapshot { repos: Vec::new() }
    }
}

impl Clone for GitSnapshot {
    fn clone(&self) -> (r: GitSnapshot)
        ensures
            r.repos@ == self.repos@,
    {
        let repos = self.repos.clone();
        proof {
            assert forall|i: int| 0 <= i < repos@.len() implies repos@[i] == self.repos@[i] by {
                assert(vstd::pervasive::cloned::<RepoStatus>(self.repos@[i], repos@[i]));
            }
            assert(repos@ =~= self.repos@);
        }
        GitSnapshot { repos }
    }
}

// ---------------------------------------------------------------------------
// Trusted boundary: the git2 types and calls the status probe relies on
// ---------------------------------------------------------------------------

#[verifier::external_type_specification]
#[verifier::external_body]
pub struct ExRepository(git2::Repository);

#[verifier::external_type_specification]
#[verifier::external_body]
pub struct ExOid(git2::Oid);

/// Relies on git2::Repository::open: opens the repository at `path`,
/// normal or bare; fails when the path does not hold one.
#[verifier::external_body]
fn open_repo(path: &String) -> (r: Option<git2::Repository>) {
    git2::Repository::open(path.as_str()).ok()
}

/// Relies on git2::Repository::head and git2::Reference::shorthand: the
/// outer `None` when HEAD cannot be resolved (unborn or broken), the
/// inner `None` when the short form is not UTF-8.
#[verifier::external_body]
fn head_shorthand(repo: &git2::Repository) -> (r: Option<Option<String>>) {
    match repo.head() {
        Ok(h) => Some(h.shorthand().ok().map(|s| s.to_string())),
        Err(_) => None,
    }
}

/// Relies on git2::Repository::head and git2::Reference::target: the
/// object id HEAD points to, `None` when HEAD is unresolved or symbolic.
#[verifier::external_body]
fn head_target(repo: &git2::Repository) -> (r: Option<git2::Oid>) {
    match repo.head() {
        Ok(h) => h.target(),
        Err(_) => None,
    }
}

/// Relies on git2::Repository::statuses and git2::StatusEntry::status:
/// the raw status bit set of each entry the status walk reports, in walk
/// order; `None` when the walk itself fails.
#[verifier::external_body]
fn repo_status_bits(repo: &git2::Repository) -> (r: Option<Vec<u32>>) {
    match repo.statuses(None) {
        Ok(st) => Some(st.iter().map(|e| e.status().bits()).collect()),
        Err(_) => None,
    }
}

/// Relies on git2::Repository::refname_to_id: resolves a fully qualified
/// reference name straight to the object id it points to.
#[verifier::external_body]
fn refname_oid(repo: &git2::Repository, refname: &String) -> (r: Option<git2::Oid>) {
    repo.refname_to_id(refname.as_str()).ok()
}

/// Relies on git2::Repository::graph_ahead_behind: how many commits the
/// first id is ahead of and behind the second.
#[verifier::external_body]
fn graph_ahead_behind(repo: &git2::Repository, local: git2::Oid, upstream: git2::Oid) -> (r:
    Option<(usize, usize)>) {
    repo.graph_ahead_behind(local, upstream).ok()
}

/// Relies on the std `format` macro: plain concatenation of the two parts.
#[verifier::external_body]
fn concat_strs(a: &str, b: &str) -> (r: String)
    ensures
        r@ == a@ + b@,
{
    format!("{a}{b}")
}

/// The final component of a path string, as std::path::Path::file_name
/// reports it: `None` for paths that end in no real component.
pub uninterp spec fn path_last_component(s: Seq<char>) -> Option<Seq<char>>;

/// Relies on std::path::Path::file_name: the final component of the
/// path, if it has one; a lossy conversion makes it a `String` again.
#[verifier::external_body]
fn path_file_name(path: &String) -> (r: Option<String>)
    ensures
        r is Some <==> path_last_component(path@) is Some,
        r matches Some(n) ==> path_last_component(path@) == Some(n@),
{
    std::path::Path::new(path.as_str()).file_name().map(|n| n.to_string_lossy().to_string())
}

// ---------------------------------------------------------------------------
// Verified status logic
// ---------------------------------------------------------------------------

/// The display name of a monitored path: its last component, or the whole
/// path where it has none.
pub open spec fn name_of(p: Seq<char>) -> Seq<char> {
    match path_last_component(p) {
        Some(n) => n,
        None => p,
    }
}

/// Display name of the repository at `path`: the last path component, or
/// the path itself as a fallback.
pub fn display_name(path: &String) -> (r: String)
    ensures
        r@ == name_of(path@),
{
    match path_file_name(path) {
        Some(n) => n,
        None => path.clone(),
    }
}

/// What the branch label of a repository is, from the resolved short
/// form of HEAD: a sentinel when HEAD is unresolved, another when the
/// short form is unreadable, otherwise the short name itself.
pub open spec fn branch_label_of(short: Option<Option<Seq<char>>>) -> Seq<char> {
    match short {
        None => "no branch"@,
        Some(None) => "HEAD"@,
        Some(Some(b)) => b,
    }
}

/// The label shown for the current branch; see [`branch_label_of`].
pub fn branch_label(short: &Option<Option<String>>) -> (r: String)
    ensures
        r@ == branch_label_of(
            match *short {
                None => None,
                Some(None) => Some(None),
                Some(Some(b)) => Some(Some(b@)),
            },
        ),
{
    match short {
        None => "no branch".to_owned(),
        Some(None) => "HEAD".to_owned(),
        Some(Some(b)) => b.clone(),
    }
}

/// Working-tree change bits of one status entry: libgit2's
/// WT_MODIFIED, WT_DELETED, WT_TYPECHANGE and WT_RENAMED flags.
pub const MODIFIED_MASK: u32 = 0xF00;

/// Staged change bits of one status entry: libgit2's INDEX_NEW,
/// INDEX_MODIFIED, INDEX_DELETED, INDEX_RENAMED and INDEX_TYPECHANGE
/// flags.
pub const STAGED_MASK: u32 = 0x1F;

/// The untracked bit of one status entry: libgit2's WT_NEW flag.
pub const UNTRACKED_MASK: u32 = 0x80;

/// How many entries have at least one bit of `mask` set.
pub open spec fn count_matching(s: Seq<u32>, mask: u32) -> int
    decreases s.len(),
{
    if s.len() == 0 {
        0
    } else {
        count_matching(s.drop_last(), mask) + (if s.last() & mask != 0 {
            1int
        } else {
            0int
        })
    }
}

/// Classify the status entries of one walk into the three panel counts:
/// entries with working-tree changes, entries with staged changes, and
/// untracked entries. One entry can fall under several counts.
pub fn count_entries(bits: &Vec<u32>) -> (r: (usize, usize, usize))
    ensures
        r.0 == count_matching(bits@, MODIFIED_MASK),
        r.1 == count_matching(bits@, STAGED_MASK),
        r.2 == count_matching(bits@, UNTRACKED_MASK),
{
    let n: usize = bits.len();
    let mut modified: usize = 0;
    let mut staged: usize = 0;
    let mut untracked: usize = 0;
    let mut i: usize = 0;
    while i < n
        invariant
            n == bits@.len(),
            i <= n,
            modified == count_matching(bits@.take(i as int), MODIFIED_MASK),
            staged == count_matching(bits@.take(i as int), STAGED_MASK),
            untracked == count_matching(bits@.take(i as int), UNTRACKED_MASK),
            modified <= i,
            staged <= i,
            untracked <= i,
        decreases n - i,
    {
        proof {
            assert(bits@.take(i + 1).drop_last() =~= bits@.take(i as int));
            assert(bits@.take(i + 1).last() == bits@[i as int]);
        }
        let b: u32 = bits[i];
        if b & MODIFIED_MASK != 0 {
            modified = modified + 1;
        }
        if b & STAGED_MASK != 0 {
            staged = staged + 1;
        }
        if b & UNTRACKED_MASK != 0 {
            untracked = untracked + 1;
        }
        i = i + 1;
    }
    proof {
        assert(bits@.take(n as int) =~= bits@);
    }
    (modified, staged, untracked)
}

/// Ahead/behind counts relative to the upstream tracking ref: (0, 0)
/// whenever the local head or the upstream ref is unresolved, otherwise
/// what the commit-graph walk reports, and (0, 0) again when that walk
/// fails.
pub fn divergence_from(
    repo: &git2::Repository,
    local: Option<git2::Oid>,
    upstream: Option<git2::Oid>,
) -> (r: (usize, usize))
    ensures
        local is None || upstream is None ==> r == (0usize, 0usize),
{
    match (local, upstream) {
        (Some(l), Some(u)) => match graph_ahead_behind(repo, l, u) {
            Some(c) => c,
            None => (0, 0),
        },
        _ => (0, 0),
    }
}

/// Full status of the repository at one configured path: display name,
/// branch label, the three change counts, and the divergence from the
/// remote tracking ref `refs/remotes/origin/<branch>`. `None` when the
/// path does not resolve to a repository or its status walk fails.
pub fn repo_status_of(path: &String) -> (r: Option<RepoStatus>)
    ensures
        r matches Some(st) ==> st.name@ == name_of(path@),
{
    let repo = match open_repo(path) {
        Some(rp) => rp,
        None => {
            return None;
        },
    };
    let bits = match repo_status_bits(&repo) {
        Some(b) => b,
        None => {
            return None;
        },
    };
    let counts = count_entries(&bits);
    let short = head_shorthand(&repo);
    let branch = branch_label(&short);
    let upstream_branch: String = match short {
        Some(Some(b)) => b,
        _ => String::new(),
    };
    let local = head_target(&repo);
    let upstream: Option<git2::Oid> = if local.is_some() {
        let upstream_ref = concat_strs("refs/remotes/origin/", upstream_branch.as_str());
        refname_oid(&repo, &upstream_ref)
    } else {
        None
    };
    let div = divergence_from(&repo, local, upstream);
    let name = display_name(path);
    Some(
        RepoStatus {
            name,
            branch,
            modified: counts.0,
            staged: counts.1,
            untracked: counts.2,
            ahead: div.0,
            behind: div.1,
        },
    )
}

// ---------------------------------------------------------------------------
// The repository-set source
// ---------------------------------------------------------------------------

/// Every reported row is the status of one of the given paths: its name
/// is the display name of some configured path.
pub open spec fn rows_from_paths(rows: Seq<RepoStatus>, paths: Seq<String>) -> bool {
    forall|i: int|
        #![trigger rows[i]]
        0 <= i < rows.len() ==> exists|j: int|
            #![trigger name_of(paths[j]@)]
            0 <= j < paths.len() && rows[i].name@ == name_of(paths[j]@)
}

/// The repository-set source: the configured paths and its own polling
/// period. One `collect` call is one cycle of the source's fixed-period
/// loop.
pub struct GitSource {
    pub repo_paths: Vec<String>,
    pub interval_secs: u64,
}

impl GitSource {
    pub fn new(repo_paths: Vec<String>, interval_secs: u64) -> (s: GitSource)
        ensures
            s.repo_paths@ == repo_paths@,
            s.interval_secs == interval_secs,
    {
        GitSource { repo_paths, interval_secs }
    }

    /// One collection cycle: the status of every configured path that
    /// resolves to a repository, in configuration order. A path that does
    /// not resolve yields no entry and never fails the cycle, so each
    /// reported row carries the display name of one configured path.
    pub fn collect(&self) -> (snap: GitSnapshot)
        ensures
            snap.repos@.len() <= self.repo_paths@.len(),
            rows_from_paths(snap.repos@, self.repo_paths@),
    {
        let n: usize = self.repo_paths.len();
        let mut repos: Vec<RepoStatus> = Vec::new();
        let mut k: usize = 0;
        while k < n
            invariant
                n == self.repo_paths@.len(),
                k <= n,
                repos@.len() <= k,
                rows_from_paths(repos@, self.repo_paths@),
            decreases n - k,
        {
            match repo_status_of(&self.repo_paths[k]) {
                Some(st) => {
                    let ghost pre = repos@;
                    repos.push(st);
                    proof {
                        assert forall|i: int|
                            #![trigger repos@[i]]
                            0 <= i < repos@.len() implies exists|j: int|
                            #![trigger name_of(self.repo_paths@[j]@)]
                            0 <= j < self.repo_paths@.len() && repos@[i].name@ == name_of(
                                self.repo_paths@[j]@,
                            ) by {
                            if i < pre.len() {
                                assert(repos@[i] == pre[i]);
                            } else {
                                assert(repos@[i].name@ == name_of(self.repo_paths@[k as int]@));
                            }
                        }
                    }
                },
                None => {},
            }
            k = k + 1;
        }
        GitSnapshot { repos }
    }
}

} // verus!
