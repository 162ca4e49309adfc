use vstd::prelude::*;
use vstd::string::*;
use crate::log::LogLine;
use crate::text::{decimal, decimal_of, remove_spaces, without_spaces};

verus! {

/// One content fetch: a depot of the application, at one manifest.
#[derive(Clone, Debug, PartialEq, Eq)]
pub struct FetchStep {
    pub depot: u64,
    pub manifest: String,
}

/// Everything one download job needs, fixed when the user asks for it.
#[derive(Clone, Debug, PartialEq, Eq)]
pub struct JobSpec {
    /// Human name of the bundle, as shown in the log.
    pub name: String,
    /// Name of the catalog entry the job was made from.
    pub source: String,
    /// Season label, the first part of the target folder's name.
    pub year: String,
    /// The application that every depot belongs to.
    pub app_id: u64,
    /// The fetches, in the order they run.
    pub steps: Vec<FetchStep>,
    /// Folder of post-download files to copy in; empty for none.
    pub crack_folder: String,
    pub username: String,
    pub password: String,
    /// Parallel connections that the fetch tool may open.
    pub max_downloads: u64,
    /// Whether the bundle is a texture pack rather than a playable build.
    pub textures: bool,
}

/// The application id of the main game.
pub const GAME_APP_ID: u64 = 359550;

/// The application id of the test server builds.
pub const TEST_SERVER_APP_ID: u64 = 623990;

/// The depot that carries the high resolution textures.
pub const TEXTURE_DEPOT: u64 = 377239;

/// The number of connections used until the user changes it.
pub const DEFAULT_MAX_DOWNLOADS: u64 = 25;

/// The line that opens a job's log: texture packs name their season, other jobs their bundle.
pub open spec fn start_line(job: JobSpec) -> LogLine {
    if job.textures {
        LogLine::StartingTextures { name: job.source }
    } else {
        LogLine::Starting { name: job.name }
    }
}

impl JobSpec {
    /// The line that opens this job's log.
    pub fn start_line(&self) -> (r: LogLine)
        ensures
            r == start_line(*self),
    {
        if self.textures {
            LogLine::StartingTextures { name: self.source.clone() }
        } else {
            LogLine::Starting { name: self.name.clone() }
        }
    }

    /// Whether the job copies post-download files once the fetches are done.
    pub open spec fn spec_has_post_step(&self) -> bool {
        self.crack_folder@.len() > 0
    }

    pub fn has_post_step(&self) -> (r: bool)
        ensures
            r == self.spec_has_post_step(),
    {
        self.crack_folder.unicode_len() > 0
    }
}

/// Name of the folder a job downloads into: the year, an underscore, the name without spaces.
pub open spec fn job_folder_of(year: Seq<char>, name: Seq<char>) -> Seq<char> {
    year + seq!['_'] + without_spaces(name)
}

pub fn job_folder(year: &str, name: &str) -> (r: String)
    ensures
        r@ == job_folder_of(year@, name@),
{
    let mut r = String::from_str(year);
    proof {
        reveal_strlit("_");
    }
    r.append("_");
    let compact = remove_spaces(name);
    r.append(compact.as_str());
    r
}

pub open spec fn flag_app() -> Seq<char> { seq!['-', 'a', 'p', 'p'] }
pub open spec fn flag_depot() -> Seq<char> { seq!['-', 'd', 'e', 'p', 'o', 't'] }
pub open spec fn flag_manifest() -> Seq<char> { seq!['-', 'm', 'a', 'n', 'i', 'f', 'e', 's', 't'] }
pub open spec fn flag_username() -> Seq<char> { seq!['-', 'u', 's', 'e', 'r', 'n', 'a', 'm', 'e'] }
pub open spec fn flag_remember() -> Seq<char> {
    seq!['-', 'r', 'e', 'm', 'e', 'm', 'b', 'e', 'r', '-', 'p', 'a', 's', 's', 'w', 'o', 'r', 'd']
}
pub open spec fn flag_dir() -> Seq<char> { seq!['-', 'd', 'i', 'r'] }
pub open spec fn flag_validate() -> Seq<char> { seq!['-', 'v', 'a', 'l', 'i', 'd', 'a', 't', 'e'] }
pub open spec fn flag_max_downloads() -> Seq<char> {
    seq!['-', 'm', 'a', 'x', '-', 'd', 'o', 'w', 'n', 'l', 'o', 'a', 'd', 's']
}
pub open spec fn flag_password() -> Seq<char> { seq!['-', 'p', 'a', 's', 's', 'w', 'o', 'r', 'd'] }

/// The arguments of the fetch tool for one step: the tool's own path first, then the
/// application, depot and manifest, the account, the target folder, the connection
/// bound, and the password only where one was given.
pub open spec fn fetch_args_of(
    tool: Seq<char>,
    app_id: nat,
    depot: nat,
    manifest: Seq<char>,
    username: Seq<char>,
    password: Seq<char>,
    dir: Seq<char>,
    max_downloads: nat,
) -> Seq<Seq<char>> {
    let base = seq![
        tool,
        flag_app(), decimal_of(app_id),
        flag_depot(), decimal_of(depot),
        flag_manifest(), manifest,
        flag_username(), username,
        flag_remember(),
        flag_dir(), dir,
        flag_validate(),
        flag_max_downloads(), decimal_of(max_downloads),
    ];
    if password.len() == 0 {
        base
    } else {
        base + seq![flag_password(), password]
    }
}

/// The views of a vector of strings.
pub open spec fn views_of(v: Seq<String>) -> Seq<Seq<char>> {
    v.map_values(|s: String| s@)
}

fn push_literal(v: &mut Vec<String>, s: &str)
    ensures
        views_of(final(v)@) == views_of(old(v)@).push(s@),
{
    v.push(String::from_str(s));
    assert(views_of(v@) =~= views_of(old(v)@).push(s@));
}

fn push_owned(v: &mut Vec<String>, s: String)
    ensures
        views_of(final(v)@) == views_of(old(v)@).push(s@),
{
    let ghost sv = s@;
    v.push(s);
    assert(views_of(v@) =~= views_of(old(v)@).push(sv));
}

impl JobSpec {
    /// The command line that runs step `index` of this job with the tool at `tool`,
    /// writing into `dir`.
    pub fn fetch_args(&self, index: usize, tool: &str, dir: &str) -> (r: Vec<String>)
        requires
            index < self.steps@.len(),
        ensures
            views_of(r@) == fetch_args_of(
                tool@,
                self.app_id as nat,
                self.steps@[index as int].depot as nat,
                self.steps@[index as int].manifest@,
                self.username@,
                self.password@,
                dir@,
                self.max_downloads as nat,
            ),
    {
        let step = &self.steps[index];
        let mut v: Vec<String> = Vec::new();
        proof {
            reveal_strlit("-app");
            reveal_strlit("-depot");
            reveal_strlit("-manifest");
            reveal_strlit("-username");
            reveal_strlit("-remember-password");
            reveal_strlit("-dir");
            reveal_strlit("-validate");
            reveal_strlit("-max-downloads");
            reveal_strlit("-password");
            assert("-app"@ =~= flag_app());
            assert("-depot"@ =~= flag_depot());
            assert("-manifest"@ =~= flag_manifest());
            assert("-username"@ =~= flag_username());
            assert("-remember-password"@ =~= flag_remember());
            assert("-dir"@ =~= flag_dir());
            assert("-validate"@ =~= flag_validate());
            assert("-max-downloads"@ =~= flag_max_downloads());
            assert("-password"@ =~= flag_password());
        }
        push_literal(&mut v, tool);
        push_literal(&mut v, "-app");
        push_owned(&mut v, decimal(self.app_id));
        push_literal(&mut v, "-depot");
        push_owned(&mut v, decimal(step.depot));
        push_literal(&mut v, "-manifest");
        push_literal(&mut v, step.manifest.as_str());
        push_literal(&mut v, "-username");
        push_literal(&mut v, self.username.as_str());
        push_literal(&mut v, "-remember-password");
        push_literal(&mut v, "-dir");
        push_literal(&mut v, dir);
        push_literal(&mut v, "-validate");
        push_literal(&mut v, "-max-downloads");
        push_owned(&mut v, decimal(self.max_downloads));
        if self.password.unicode_len() > 0 {
            push_literal(&mut v, "-password");
            push_literal(&mut v, self.password.as_str());
        }
        let ghost expected = fetch_args_of(
            tool@,
            self.app_id as nat,
            step.depot as nat,
            step.manifest@,
            self.username@,
            self.password@,
            dir@,
            self.max_downloads as nat,
        );
        assert(views_of(v@) =~= expected);
        v
    }
}

} // verus!
