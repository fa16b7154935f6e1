//! NASA Earthdata downloads.
//!
//! Handles EDL OAuth redirects, pre-signed S3 URLs, and HTTP 202 polling.
//! Credentials are read from EARTHDATA_USER/EARTHDATA_PASS or ~/.netrc.
use vstd::prelude::*;

use crate::split;
use crate::split::split_whitespace;
use crate::text;
use crate::text::{concat2, concat3, concat4, contains, text_eq};
use crate::urls;
use crate::urls::{join_url, parse_url, path_segments, query_keys};

verus! {

// ---------------------------------------------------------------------------
// Credentials
// ---------------------------------------------------------------------------

/// A user name and a password.
pub struct Creds {
    pub user: String,
    pub pass: String,
}

/// Credentials from the environment, where both variables are set.
pub fn load_creds(user: Option<String>, pass: Option<String>) -> (r: Option<Creds>)
    ensures
        match r {
            Some(creds) => user == Some(creds.user) && pass == Some(creds.pass),
            None => user is None || pass is None,
        },
{
    match (user, pass) {
        (Some(user), Some(pass)) => Some(Creds { user, pass }),
        _ => None,
    }
}

/// Whether a machine name is that of the Earthdata login service.
pub open spec fn is_earthdata(machine: Seq<char>) -> bool {
    text::contains_text(machine, "earthdata.nasa.gov"@) || text::contains_text(
        machine,
        "urs.earthdata.nasa.gov"@,
    )
}

/// The token at a position, if there is one.
pub open spec fn token_at(tokens: Seq<Seq<char>>, i: int) -> Option<Seq<char>> {
    if 0 <= i < tokens.len() {
        Some(tokens[i])
    } else {
        None
    }
}

/// The login and the password that the tokens of a netrc file give from position
/// `i` on: `login` and `password` count behind the machine that they are meant
/// for, later ones replace earlier ones, and a `default` entry behind it ends
/// the search.
pub open spec fn scan(
    tokens: Seq<Seq<char>>,
    i: int,
    in_machine: bool,
    user: Option<Seq<char>>,
    pass: Option<Seq<char>>,
) -> (Option<Seq<char>>, Option<Seq<char>>)
    decreases tokens.len() - i + 1,
{
    if i < 0 || i >= tokens.len() {
        (user, pass)
    } else if tokens[i] == "machine"@ {
        scan(
            tokens,
            i + 2,
            i + 1 < tokens.len() && is_earthdata(tokens[i + 1]),
            user,
            pass,
        )
    } else if tokens[i] == "login"@ && in_machine {
        scan(tokens, i + 2, in_machine, token_at(tokens, i + 1), pass)
    } else if tokens[i] == "password"@ && in_machine {
        scan(tokens, i + 2, in_machine, user, token_at(tokens, i + 1))
    } else if tokens[i] == "default"@ && in_machine {
        (user, pass)
    } else {
        scan(tokens, i + 1, in_machine, user, pass)
    }
}

/// The login and the password that a netrc file gives for Earthdata.
pub open spec fn netrc_entry(contents: Seq<char>) -> (Option<Seq<char>>, Option<Seq<char>>) {
    scan(split::words(contents), 0, false, None, None)
}

proof fn lemma_keywords()
    ensures
        "machine"@ != "login"@,
        "machine"@ != "password"@,
        "machine"@ != "default"@,
        "login"@ != "password"@,
        "login"@ != "default"@,
        "password"@ != "default"@,
{
    reveal_strlit("machine");
    reveal_strlit("login");
    reveal_strlit("password");
    reveal_strlit("default");
    assert("machine"@.len() == 7);
    assert("login"@.len() == 5);
    assert("password"@.len() == 8);
    assert("default"@.len() == 7);
    assert("machine"@[0] != "default"@[0]);
}

fn copy_token(tokens: &Vec<String>, i: usize) -> (r: Option<String>)
    ensures
        text::opt_text(r) == token_at(text::texts(tokens@), i as int),
{
    if i < tokens.len() {
        Some(tokens[i].clone())
    } else {
        None
    }
}

/// The credentials that a netrc file gives for Earthdata, where `path` is the
/// path of the file.
pub fn parse_netrc(contents: &str, path: &str) -> (r: Result<Creds, String>)
    ensures
        match (r, netrc_entry(contents@)) {
            (Ok(creds), (Some(user), Some(pass))) => creds.user@ == user && creds.pass@ == pass,
            (Err(message), (None, _)) => message@ == "No login found in "@ + path@,
            (Err(message), (Some(_), None)) => message@ == "No password found in "@ + path@,
            _ => false,
        },
{
    let tokens = split_whitespace(contents);
    let ghost words = text::texts(tokens@);
    let n: usize = tokens.len();
    let mut i: usize = 0;
    let mut in_machine = false;
    let mut user: Option<String> = None;
    let mut pass: Option<String> = None;
    let mut ended = false;
    proof {
        lemma_keywords();
    }
    while i < n && !ended
        invariant
            n == tokens.len(),
            words == text::texts(tokens@),
            words == split::words(contents@),
            "machine"@ != "login"@,
            "machine"@ != "password"@,
            "machine"@ != "default"@,
            "login"@ != "password"@,
            "login"@ != "default"@,
            "password"@ != "default"@,
            netrc_entry(contents@) == if ended {
                (text::opt_text(user), text::opt_text(pass))
            } else {
                scan(words, i as int, in_machine, text::opt_text(user), text::opt_text(pass))
            },
        decreases n - i,
    {
        assert(words[i as int] == tokens[i as int]@);
        let step: usize;
        if text_eq(tokens[i].as_str(), "machine") {
            if i + 1 < n {
                assert(words[i + 1] == tokens[i + 1]@);
                let name = tokens[i + 1].as_str();
                in_machine = contains(name, "earthdata.nasa.gov") || contains(
                    name,
                    "urs.earthdata.nasa.gov",
                );
            } else {
                in_machine = false;
            }
            step = 2;
        } else if in_machine && text_eq(tokens[i].as_str(), "login") {
            user = copy_token(&tokens, i + 1);
            step = 2;
        } else if in_machine && text_eq(tokens[i].as_str(), "password") {
            pass = copy_token(&tokens, i + 1);
            step = 2;
        } else if in_machine && text_eq(tokens[i].as_str(), "default") {
            ended = true;
            step = 1;
        } else {
            step = 1;
        }
        proof {
            let (u, p) = (text::opt_text(user), text::opt_text(pass));
            assert(scan(words, n as int, in_machine, u, p) == (u, p));
            assert(scan(words, n + 1, in_machine, u, p) == (u, p));
            assert(!ended ==> netrc_entry(contents@) == scan(words, i + step, in_machine, u, p));
        }
        i = if n - i > step {
            i + step
        } else {
            n
        };
    }
    match user {
        None => Err(concat2("No login found in ", path)),
        Some(user) => match pass {
            None => Err(concat2("No password found in ", path)),
            Some(pass) => Ok(Creds { user, pass }),
        },
    }
}

/// An entry for an Earthdata machine, written in one piece, is found: its login
/// and its password are the ones that are used.
pub proof fn netrc_entries_are_found(machine: Seq<char>, user: Seq<char>, pass: Seq<char>)
    requires
        is_earthdata(machine),
    ensures
        scan(
            seq!["machine"@, machine, "login"@, user, "password"@, pass],
            0,
            false,
            None,
            None,
        ) == (Some(user), Some(pass)),
{
    lemma_keywords();
    let tokens = seq!["machine"@, machine, "login"@, user, "password"@, pass];
    assert(tokens[0] == "machine"@ && tokens[1] == machine);
    assert(tokens[2] == "login"@ && tokens[3] == user);
    assert(tokens[4] == "password"@ && tokens[5] == pass);
    reveal_with_fuel(scan, 5);
    assert(scan(tokens, 6, true, Some(user), Some(pass)) == (Some(user), Some(pass)));
    assert(scan(tokens, 4, true, Some(user), None) == (Some(user), Some(pass)));
    assert(scan(tokens, 2, true, None, None) == (Some(user), Some(pass)));
}

// ---------------------------------------------------------------------------
// URLs
// ---------------------------------------------------------------------------

/// Whether a URL carries a signature of its own.
pub open spec fn presigned(url: Seq<char>) -> bool {
    match urls::query_keys_of(url) {
        Some(keys) => keys.contains("X-Amz-Signature"@),
        None => false,
    }
}

/// Whether the keys of a query hold a signature.
pub fn holds_signature(keys: &Vec<String>) -> (r: bool)
    ensures
        r == text::texts(keys@).contains("X-Amz-Signature"@),
{
    for i in 0..keys.len()
        invariant
            forall|j: int| 0 <= j < i ==> (#[trigger] keys[j])@ != "X-Amz-Signature"@,
    {
        if text_eq(keys[i].as_str(), "X-Amz-Signature") {
            assert(text::texts(keys@)[i as int] == "X-Amz-Signature"@);
            return true;
        }
    }
    proof {
        let all = text::texts(keys@);
        if all.contains("X-Amz-Signature"@) {
            let j = choose|j: int| 0 <= j < all.len() && all[j] == "X-Amz-Signature"@;
            assert(keys[j]@ == "X-Amz-Signature"@);
        }
    }
    false
}

/// Pre-signed S3 URLs carry auth in query params; adding an `Authorization`
/// header causes HTTP 400 ("only one auth mechanism allowed").
pub fn is_presigned_s3(url: &str) -> (r: bool)
    ensures
        r == presigned(url@),
{
    match query_keys(url) {
        Some(keys) => holds_signature(&keys),
        None => false,
    }
}

/// Derive a filename from the last path segment of a URL. There is none where
/// the segment is empty or the text has no path of segments.
pub fn filename_from_url(url: &str) -> (r: Option<String>)
    ensures
        text::opt_text(r) == match urls::segments_of(url@) {
            Some(segments) => if segments.last().len() > 0 {
                Some(segments.last())
            } else {
                None
            },
            None => None,
        },
{
    match path_segments(url) {
        Some(segments) => last_name(&segments),
        None => None,
    }
}

/// The last segment of a path, if it is not empty.
pub fn last_name(segments: &Vec<String>) -> (r: Option<String>)
    requires
        segments.len() > 0,
    ensures
        text::opt_text(r) == (if text::texts(segments@).last().len() > 0 {
            Some(text::texts(segments@).last())
        } else {
            None
        }),
{
    let last = segments[segments.len() - 1].clone();
    assert(text::texts(segments@).last() == last@);
    proof {
        reveal_strlit("");
        assert(""@.len() == 0);
        if last@.len() == 0 {
            assert(last@ =~= ""@);
        }
    }
    if text_eq(last.as_str(), "") {
        None
    } else {
        Some(last)
    }
}

// ---------------------------------------------------------------------------
// The download
// ---------------------------------------------------------------------------

/// How often a file that is being generated is asked for at most.
pub const MAX_POLLS: u32 = 20;

/// The seconds before the first poll; each later one waits that much longer.
pub const POLL_BASE_SECS: u64 = 3;

/// A download on its way.
#[derive(Debug)]
pub struct Download {
    /// The URL that is asked for.
    pub url: String,
    /// Which poll for a file that is being generated this is; 0 where none is.
    pub poll: u32,
}

/// What to do next.
#[derive(Debug)]
pub enum DownloadAction {
    /// Wait, then ask for the URL; with the credentials where `auth` says so.
    Get { wait_secs: u64, auth: bool },
    /// Write the body of the answer to the file.
    Save,
    /// Give up with this message.
    Fail(String),
}

/// An answer to a request.
#[derive(Debug)]
pub struct Answer {
    /// The status code.
    pub status: u16,
    /// The status code and its name, as text.
    pub status_text: String,
    /// The `Location` header, where it is text.
    pub location: Option<String>,
}

impl Answer {
    /// Whether the answer leads elsewhere.
    pub open spec fn is_redirection(self) -> bool {
        300 <= self.status < 400
    }
}

/// What follows an answer.
#[derive(Debug)]
pub enum Next {
    /// Ask for the URL after a wait.
    Ask { wait_secs: u64 },
    /// Write the body of the answer to the file.
    Save,
    /// Give up with this message.
    Fail(String),
}

/// What a `Next` says.
pub enum NextModel {
    Ask { wait_secs: int },
    Save,
    Fail(Seq<char>),
}

impl View for Next {
    type V = NextModel;

    open spec fn view(&self) -> NextModel {
        match *self {
            Next::Ask { wait_secs } => NextModel::Ask { wait_secs: wait_secs as int },
            Next::Save => NextModel::Save,
            Next::Fail(message) => NextModel::Fail(message@),
        }
    }
}

/// Whether an action does what follows an answer: the URL is asked for with
/// credentials exactly where it carries no signature.
pub open spec fn performs(action: DownloadAction, next: NextModel, url: Seq<char>) -> bool {
    match (action, next) {
        (
            DownloadAction::Get { wait_secs, auth },
            NextModel::Ask { wait_secs: secs },
        ) => wait_secs == secs && auth == !presigned(url),
        (DownloadAction::Save, NextModel::Save) => true,
        (DownloadAction::Fail(found), NextModel::Fail(message)) => found@ == message,
        _ => false,
    }
}

impl Download {
    /// Whether the count of polls is one that can come up.
    pub open spec fn wf(self) -> bool {
        self.poll <= MAX_POLLS
    }

    /// The URL that an answer leads to, if it leads to one.
    pub open spec fn target(self, answer: Answer) -> Option<Seq<char>> {
        match answer.location {
            Some(location) => urls::joined_url(self.url@, location@),
            None => None,
        }
    }

    /// The URL, the count of polls and what to do after an answer, where `target`
    /// is the URL that a redirect leads to.
    ///
    /// - Redirects are followed by hand to attach auth on every hop.
    /// - 200: the file is saved.
    /// - 202: the file is being generated server-side; it is polled until ready.
    pub open spec fn after(self, answer: Answer, target: Option<Seq<char>>) -> (
        Seq<char>,
        int,
        NextModel,
    ) {
        let (url, poll) = (self.url@, self.poll as int);
        if answer.is_redirection() {
            if answer.location is None {
                (url, poll, NextModel::Fail("Redirect with no Location header"@))
            } else {
                match target {
                    None => (url, poll, NextModel::Fail("Bad redirect URL"@)),
                    Some(target) => (target, 0, NextModel::Ask { wait_secs: 0 }),
                }
            }
        } else if answer.status == 200 {
            (url, poll, NextModel::Save)
        } else if answer.status == 202 {
            if poll == MAX_POLLS {
                (url, poll, NextModel::Fail("File not ready after 20 polls"@))
            } else {
                (url, poll + 1, NextModel::Ask { wait_secs: 3 * (poll + 1) })
            }
        } else if poll > 0 {
            (
                url,
                poll,
                NextModel::Fail(
                    "Unexpected status "@ + answer.status_text@ + " while polling"@,
                ),
            )
        } else {
            (url, poll, NextModel::Fail("HTTP "@ + answer.status_text@ + " from "@ + url))
        }
    }

    /// Starts a download. A text that is no URL cannot be downloaded.
    pub fn start(url: &str) -> (r: Result<(Download, DownloadAction), &'static str>)
        ensures
            match (r, urls::normal_url(url@)) {
                (Ok((download, action)), Some(normal)) => {
                    &&& download.wf()
                    &&& download.url@ == normal
                    &&& download.poll == 0
                    &&& performs(action, NextModel::Ask { wait_secs: 0 }, normal)
                },
                (Err(message), None) => message@ == "Invalid URL"@,
                _ => false,
            },
    {
        match parse_url(url) {
            None => Err("Invalid URL"),
            Some(url) => {
                let download = Download { url, poll: 0 };
                let action = download.act(Next::Ask { wait_secs: 0 });
                Ok((download, action))
            },
        }
    }

    fn act(&self, next: Next) -> (r: DownloadAction)
        ensures
            performs(r, next@, self.url@),
    {
        match next {
            Next::Ask { wait_secs } => DownloadAction::Get {
                wait_secs,
                auth: !is_presigned_s3(self.url.as_str()),
            },
            Next::Save => DownloadAction::Save,
            Next::Fail(message) => DownloadAction::Fail(message),
        }
    }

    /// Takes an answer, where `target` is the URL that a redirect leads to, and
    /// says what follows.
    pub fn follow(&mut self, answer: &Answer, target: Option<String>) -> (r: Next)
        requires
            old(self).wf(),
        ensures
            final(self).wf(),
            (final(self).url@, final(self).poll as int, r@) == old(self).after(
                *answer,
                text::opt_text(target),
            ),
    {
        if 300 <= answer.status && answer.status < 400 {
            if answer.location.is_none() {
                return Next::Fail("Redirect with no Location header".to_owned());
            }
            match target {
                None => Next::Fail("Bad redirect URL".to_owned()),
                Some(url) => {
                    self.url = url;
                    self.poll = 0;
                    Next::Ask { wait_secs: 0 }
                },
            }
        } else if answer.status == 200 {
            Next::Save
        } else if answer.status == 202 {
            if self.poll == MAX_POLLS {
                return Next::Fail("File not ready after 20 polls".to_owned());
            }
            self.poll = self.poll + 1;
            Next::Ask { wait_secs: POLL_BASE_SECS * self.poll as u64 }
        } else if self.poll > 0 {
            Next::Fail(
                concat3("Unexpected status ", answer.status_text.as_str(), " while polling"),
            )
        } else {
            Next::Fail(
                concat4("HTTP ", answer.status_text.as_str(), " from ", self.url.as_str()),
            )
        }
    }

    /// Takes the answer to a request and says what to do next.
    pub fn step(&mut self, answer: &Answer) -> (r: DownloadAction)
        requires
            old(self).wf(),
        ensures
            final(self).wf(),
            ({
                let (url, poll, next) = old(self).after(*answer, old(self).target(*answer));
                &&& final(self).url@ == url
                &&& final(self).poll == poll
                &&& performs(r, next, url)
            }),
    {
        let target = match &answer.location {
            Some(location) => join_url(self.url.as_str(), location.as_str()),
            None => None,
        };
        let next = self.follow(answer, target);
        self.act(next)
    }

    /// A file is polled at most 20 times in a row, each wait longer than the
    /// last and none longer than a minute.
    pub proof fn polling_is_bounded(before: Download, answer: Answer, target: Option<Seq<char>>)
        requires
            before.wf(),
            answer.status == 202,
        ensures
            ({
                let (url, poll, next) = before.after(answer, target);
                match next {
                    NextModel::Ask { wait_secs } => {
                        &&& url == before.url@
                        &&& poll == before.poll + 1
                        &&& poll <= 20
                        &&& wait_secs == 3 * poll
                        &&& wait_secs <= 60
                    },
                    NextModel::Fail(_) => before.poll == 20,
                    NextModel::Save => false,
                }
            }),
    {
    }
}

/// What an answer leads to. A file comes with the status 200 and no other. A redirect
/// is followed at once, to where it leads, and begins the count of polls anew. The
/// status 202 is asked again at the same place, until the polls are used up. Every
/// other answer ends the download, which stays at its place.
pub proof fn answers_lead_on(before: Download, answer: Answer, target: Option<Seq<char>>)
    requires
        before.wf(),
    ensures
        ({
            let (url, poll, next) = before.after(answer, target);
            &&& next is Save <==> answer.status == 200
            &&& next is Ask <==> (300 <= answer.status <= 399 && answer.location is Some
                && target is Some) || (answer.status == 202 && before.poll < 20)
            &&& 300 <= answer.status <= 399 && next is Ask ==> target == Some(url) && poll == 0
                && next == (NextModel::Ask { wait_secs: 0 })
            &&& !(300 <= answer.status <= 399 && next is Ask) ==> url == before.url@
            &&& answer.status == 202 && next is Ask ==> poll == before.poll + 1
        }),
{
}

/// A URL is asked for with the credentials, or carries the signature of its own that
/// takes their place: never both, never neither. Nothing is asked for that is not to
/// be.
pub proof fn every_request_carries_one_proof(
    action: DownloadAction,
    next: NextModel,
    url: Seq<char>,
)
    requires
        performs(action, next, url),
    ensures
        action is Get <==> next is Ask,
        action is Save <==> next is Save,
        action is Fail <==> next is Fail,
        action matches DownloadAction::Get { wait_secs, auth } ==> wait_secs
            == next->wait_secs && (!auth <==> urls::query_keys_of(url) is Some
            && urls::query_keys_of(url)->0.contains("X-Amz-Signature"@)),
{
}

} // verus!
