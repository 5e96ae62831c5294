//! The addresses that the tool points a browser or a reader to.

use crate::branch::{extract_ticket_id, ticket_in_branch};
use crate::config::settings::{GitConfig, GitConfigModel, Settings, SettingsModel};
use crate::errors::{DevFlowError, ErrorModel};
use crate::text::{chars_of, matches_at, occurs_at, string_of};
use vstd::prelude::*;
use vstd::utf8::encode_utf8;

verus! {

/// The bytes that percent-encoding leaves as they are: the letters and
/// digits of ASCII, and `-`, `.`, `_`, `~`.
pub open spec fn is_unreserved(b: u8) -> bool {
    (0x30 <= b <= 0x39) || (0x41 <= b <= 0x5a) || (0x61 <= b <= 0x7a) || b == 0x2d || b == 0x2e
        || b == 0x5f || b == 0x7e
}

/// The hexadecimal digit, in upper case, for a value below sixteen.
pub open spec fn hex_digit(d: u8) -> char {
    if d < 10 {
        (0x30 + d) as char
    } else {
        (0x41 + d - 10) as char
    }
}

/// One byte, percent-encoded: itself when unreserved, else `%` and its two
/// hexadecimal digits.
pub open spec fn encoded_byte(b: u8) -> Seq<char> {
    if is_unreserved(b) {
        seq![b as char]
    } else {
        seq!['%', hex_digit(b / 16), hex_digit(b % 16)]
    }
}

/// Bytes, percent-encoded one after another.
pub open spec fn percent_encoded(bytes: Seq<u8>) -> Seq<char>
    decreases bytes.len(),
{
    if bytes.len() == 0 {
        Seq::empty()
    } else {
        percent_encoded(bytes.drop_last()) + encoded_byte(bytes.last())
    }
}

/// A text as it stands inside an address: the percent-encoding of its UTF-8
/// bytes.
pub open spec fn url_encoded(text: Seq<char>) -> Seq<char> {
    percent_encoded(encode_utf8(text))
}

/// `text` with every occurrence of `pattern` taken out, found from left to
/// right. An empty pattern takes nothing out.
pub open spec fn without(text: Seq<char>, pattern: Seq<char>) -> Seq<char>
    decreases text.len(),
{
    if pattern.len() == 0 || text.len() < pattern.len() {
        text
    } else if occurs_at(text, pattern, 0) {
        without(text.skip(pattern.len() as int), pattern)
    } else {
        seq![text[0]] + without(text.drop_first(), pattern)
    }
}

/// The address of a ticket's page in the tracker.
pub open spec fn ticket_link(jira_url: Seq<char>, ticket_id: Seq<char>) -> Seq<char> {
    jira_url + "/browse/"@ + ticket_id
}

/// The address of a project's boards in the tracker.
pub open spec fn board_link(jira_url: Seq<char>, project_key: Seq<char>) -> Seq<char> {
    jira_url + "/jira/software/projects/"@ + project_key + "/boards"@
}

/// The address of the pull requests of a branch on GitHub. The site's
/// address is that of its API without `api.`.
pub open spec fn pull_requests_link(
    base_url: Seq<char>,
    owner: Seq<char>,
    repo: Seq<char>,
    branch: Seq<char>,
) -> Seq<char> {
    without(base_url, "api."@) + "/"@ + owner + "/"@ + repo + "/pulls?q=is%3Apr+head%3A"@
        + url_encoded(branch)
}

/// The address of the open merge requests of a branch on GitLab.
pub open spec fn merge_requests_link(base_url: Seq<char>, branch: Seq<char>) -> Seq<char> {
    base_url + "/merge_requests?scope=all&state=opened&source_branch="@ + url_encoded(branch)
}

/// The address at which the review requests of a branch are found, by the
/// provider that the configuration names: `github` or `gitlab`, in exactly
/// this spelling.
pub open spec fn review_link(git: GitConfigModel, branch: Seq<char>) -> Result<
    Seq<char>,
    ErrorModel,
> {
    if git.provider == "github"@ {
        match git.owner {
            None => Err(ErrorModel::Other("GitHub owner not configured"@)),
            Some(owner) => match git.repo {
                None => Err(ErrorModel::Other("GitHub repo not configured"@)),
                Some(repo) => Ok(pull_requests_link(git.base_url, owner, repo, branch)),
            },
        }
    } else if git.provider == "gitlab"@ {
        Ok(merge_requests_link(git.base_url, branch))
    } else {
        Err(ErrorModel::Other("Unsupported provider: "@ + git.provider))
    }
}

/// Calls `urlencoding::encode`, which percent-encodes every byte of the
/// text's UTF-8 form except the letters and digits of ASCII and `-`, `_`,
/// `.`, `~`, with hexadecimal digits in upper case.
#[verifier::external_body]
pub(crate) fn url_encode(text: &str) -> (res: String)
    ensures
        res@ == url_encoded(text@),
{
    urlencoding::encode(text).into_owned()
}

/// The address of a ticket's page in the tracker.
pub fn ticket_url(jira_url: &str, ticket_id: &str) -> (url: String)
    ensures
        url@ == ticket_link(jira_url@, ticket_id@),
{
    let mut url = String::from_str(jira_url);
    url.append("/browse/");
    url.append(ticket_id);
    url
}

/// The address of a project's boards in the tracker.
pub fn board_url(jira_url: &str, project_key: &str) -> (url: String)
    ensures
        url@ == board_link(jira_url@, project_key@),
{
    let mut url = String::from_str(jira_url);
    url.append("/jira/software/projects/");
    url.append(project_key);
    url.append("/boards");
    url
}

/// `text` with every occurrence of `pattern` taken out.
pub fn remove_all(text: &str, pattern: &str) -> (res: String)
    ensures
        res@ == without(text@, pattern@),
{
    let chars = chars_of(text);
    let pat = chars_of(pattern);
    let n = chars.len();
    let m = pat.len();
    if m == 0 || n < m {
        return String::from_str(text);
    }
    let mut out: Vec<char> = Vec::new();
    let mut i: usize = 0;
    proof {
        assert(chars@.skip(0) =~= chars@);
    }
    while i <= n - m
        invariant
            0 <= i <= n,
            n == chars.len(),
            m == pat.len(),
            0 < m <= n,
            without(chars@, pat@) == out@ + without(chars@.skip(i as int), pat@),
        decreases n - i,
    {
        let ghost rest = chars@.skip(i as int);
        if matches_at(&chars, &pat, i) {
            proof {
                assert(rest.subrange(0, m as int) =~= chars@.subrange(i as int, i + m));
                assert(rest.skip(m as int) =~= chars@.skip(i + m));
            }
            i = i + m;
        } else {
            proof {
                assert(rest.subrange(0, m as int) =~= chars@.subrange(i as int, i + m));
                assert(rest.drop_first() =~= chars@.skip(i + 1));
                assert(rest[0] == chars@[i as int]);
                assert(out@.push(chars@[i as int]) + without(chars@.skip(i + 1), pat@) =~= out@ + (
                seq![rest[0]] + without(rest.drop_first(), pat@)));
            }
            out.push(chars[i]);
            i = i + 1;
        }
    }
    while i < n
        invariant
            0 <= i <= n,
            n == chars.len(),
            m == pat.len(),
            n < i + m,
            without(chars@, pat@) == out@ + chars@.skip(i as int),
        decreases n - i,
    {
        proof {
            assert(out@.push(chars@[i as int]) + chars@.skip(i + 1) =~= out@ + chars@.skip(
                i as int,
            ));
        }
        out.push(chars[i]);
        i = i + 1;
    }
    proof {
        assert(out@ + chars@.skip(n as int) =~= out@);
    }
    string_of(&out)
}

/// The address of the pull requests of a branch on GitHub.
pub fn pull_requests_url(base_url: &str, owner: &str, repo: &str, branch: &str) -> (url: String)
    ensures
        url@ == pull_requests_link(base_url@, owner@, repo@, branch@),
{
    let mut url = remove_all(base_url, "api.");
    let encoded = url_encode(branch);
    url.append("/");
    url.append(owner);
    url.append("/");
    url.append(repo);
    url.append("/pulls?q=is%3Apr+head%3A");
    url.append(encoded.as_str());
    url
}

/// The address of the open merge requests of a branch on GitLab.
pub fn merge_requests_url(base_url: &str, branch: &str) -> (url: String)
    ensures
        url@ == merge_requests_link(base_url@, branch@),
{
    let mut url = String::from_str(base_url);
    let encoded = url_encode(branch);
    url.append("/merge_requests?scope=all&state=opened&source_branch=");
    url.append(encoded.as_str());
    url
}

/// The address at which the review requests of a branch are found, or the
/// reason why there is none: GitHub needs an owner and a repository, and
/// no other provider than GitHub and GitLab is known.
pub fn review_url(git: &GitConfig, branch: &str) -> (res: Result<String, DevFlowError>)
    ensures
        match res {
            Ok(url) => review_link(git@, branch@) == Ok::<Seq<char>, ErrorModel>(url@),
            Err(reason) => review_link(git@, branch@) == Err::<Seq<char>, ErrorModel>(reason@),
        },
{
    if git.provider == String::from_str("github") {
        match &git.owner {
            None => Err(DevFlowError::Other(String::from_str("GitHub owner not configured"))),
            Some(owner) => match &git.repo {
                None => Err(DevFlowError::Other(String::from_str("GitHub repo not configured"))),
                Some(repo) => Ok(
                    pull_requests_url(
                        git.base_url.as_str(),
                        owner.as_str(),
                        repo.as_str(),
                        branch,
                    ),
                ),
            },
        }
    } else if git.provider == String::from_str("gitlab") {
        Ok(merge_requests_url(git.base_url.as_str(), branch))
    } else {
        let mut text = String::from_str("Unsupported provider: ");
        text.append(git.provider.as_str());
        Err(DevFlowError::Other(text))
    }
}

/// Whether the branch that is checked out has to be known to tell which
/// address to open: not for the board; else whenever no ticket is named or
/// the review request is asked for.
pub open spec fn asks_for_branch(names_ticket: bool, review: bool, board: bool) -> bool {
    !board && (!names_ticket || review)
}

/// The address to open. The board, when it is asked for. Else the ticket
/// is the one that is named or, when none is named, the one that the
/// branch carries; and the address is that of the branch's review
/// requests, when they are asked for, and that of the ticket otherwise.
pub open spec fn address_to_open(
    settings: SettingsModel,
    ticket_id: Option<&str>,
    branch: Seq<char>,
    review: bool,
    board: bool,
) -> Result<Seq<char>, ErrorModel> {
    if board {
        Ok(board_link(settings.jira.url, settings.jira.project_key))
    } else if ticket_id is None && ticket_in_branch(branch) is None {
        Err(ErrorModel::BranchHasNoTicketId(branch))
    } else if review {
        review_link(settings.git, branch)
    } else {
        Ok(
            ticket_link(
                settings.jira.url,
                match ticket_id {
                    Some(id) => id@,
                    None => ticket_in_branch(branch)->Some_0,
                },
            ),
        )
    }
}

/// Whether the branch that is checked out has to be known to tell which
/// address to open.
pub fn needs_branch(names_ticket: bool, review: bool, board: bool) -> (res: bool)
    ensures
        res == asks_for_branch(names_ticket, review, board),
{
    !board && (!names_ticket || review)
}

/// The address to open. `branch` is read only where
/// [`asks_for_branch`] holds.
pub fn open_url(
    settings: &Settings,
    ticket_id: Option<&str>,
    branch: &str,
    review: bool,
    board: bool,
) -> (res: Result<String, DevFlowError>)
    ensures
        match res {
            Ok(url) => address_to_open(settings@, ticket_id, branch@, review, board) == Ok::<
                Seq<char>,
                ErrorModel,
            >(url@),
            Err(reason) => address_to_open(settings@, ticket_id, branch@, review, board) == Err::<
                Seq<char>,
                ErrorModel,
            >(reason@),
        },
{
    if board {
        return Ok(board_url(settings.jira.url.as_str(), settings.jira.project_key.as_str()));
    }
    let id = match ticket_id {
        Some(id) => String::from_str(id),
        None => match extract_ticket_id(branch) {
            Ok(id) => id,
            Err(reason) => {
                return Err(reason);
            },
        },
    };
    if review {
        review_url(&settings.git, branch)
    } else {
        Ok(ticket_url(settings.jira.url.as_str(), id.as_str()))
    }
}

} // verus!
