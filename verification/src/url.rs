//! The address of a database location.

use vstd::prelude::*;
use vstd::string::StringExecFns;

verus! {

/// Where the database of `project_id` keeps the value at `path`.
pub open spec fn location(project_id: Seq<char>, path: Seq<char>) -> Seq<char> {
    "https://"@ + project_id + ".firebaseio.com/"@ + path + ".json"@
}

/// The address under which the database of `project_id` serves the value at
/// `path` to the bearer of `token`.
///
/// The three parts are taken as they are. A `path` that begins with a slash
/// therefore gives an address with two slashes after the host.
pub open spec fn database_url(
    project_id: Seq<char>,
    path: Seq<char>,
    token: Seq<char>,
) -> Seq<char> {
    location(project_id, path) + "?access_token="@ + token
}

/// Whether `text` holds two slashes in a row at index `i`.
pub open spec fn doubled_slash_at(text: Seq<char>, i: int) -> bool {
    0 <= i && i + 1 < text.len() && text[i] == '/' && text[i + 1] == '/'
}

/// Whether `text` nowhere holds two slashes in a row.
pub open spec fn single_slashes(text: Seq<char>) -> bool {
    forall|i: int| !doubled_slash_at(text, i)
}

/// Whether `text` begins with a slash.
pub open spec fn leading_slash(text: Seq<char>) -> bool {
    text.len() > 0 && text[0] == '/'
}

/// Builds the address of `path` in the database of `project_id`, carrying
/// `token` as the `access_token` query parameter.
pub fn build_url(project_id: &str, path: &str, token: &str) -> (url: String)
    ensures
        url@ == database_url(project_id@, path@, token@),
{
    let mut url = String::from_str("https://");
    url.append(project_id);
    url.append(".firebaseio.com/");
    url.append(path);
    url.append(".json");
    url.append("?access_token=");
    url.append(token);
    url
}

/// The address written out: scheme, project, host, path, suffix and token, in
/// this order and with nothing between them.
pub proof fn lemma_url_spelled_out(project_id: Seq<char>, path: Seq<char>, token: Seq<char>)
    ensures
        database_url(project_id, path, token) == "https://"@ + project_id + ".firebaseio.com/"@
            + path + ".json?access_token="@ + token,
        database_url(project_id, path, token).len() == project_id.len() + path.len()
            + token.len() + 43,
{
    reveal_strlit("https://");
    reveal_strlit(".firebaseio.com/");
    reveal_strlit(".json");
    reveal_strlit("?access_token=");
    reveal_strlit(".json?access_token=");
    assert(".json"@ + "?access_token="@ =~= ".json?access_token="@);
}

/// Where the address holds two slashes in a row.
///
/// It always does in `https://`. A path that begins with a slash adds a
/// second pair, right after the host. Without such a path the pair of
/// `https://` is the only one, provided that no part holds a pair itself and
/// that the project identifier begins with no slash.
pub proof fn lemma_double_slashes(project_id: Seq<char>, path: Seq<char>, token: Seq<char>)
    ensures
        doubled_slash_at(database_url(project_id, path, token), 6),
        leading_slash(path) ==> doubled_slash_at(
            database_url(project_id, path, token),
            project_id.len() as int + 23,
        ),
        !leading_slash(path) && !leading_slash(project_id) && single_slashes(project_id)
            && single_slashes(path) && single_slashes(token) ==> forall|i: int|
            doubled_slash_at(database_url(project_id, path, token), i) ==> i == 6,
{
    reveal_strlit("https://");
    reveal_strlit(".firebaseio.com/");
    reveal_strlit(".json");
    reveal_strlit("?access_token=");
    let url = database_url(project_id, path, token);
    let host_end = 8 + project_id.len() + 16;
    let path_end = host_end + path.len() + 19;
    if !leading_slash(path) && !leading_slash(project_id) && single_slashes(project_id)
        && single_slashes(path) && single_slashes(token) {
        assert forall|i: int| doubled_slash_at(url, i) implies i == 6 by {
            if 8 <= i && i + 1 < 8 + project_id.len() {
                assert(doubled_slash_at(project_id, i - 8));
            } else if host_end <= i && i + 1 < host_end + path.len() {
                assert(doubled_slash_at(path, i - host_end));
            } else if path_end <= i {
                assert(doubled_slash_at(token, i - path_end));
            }
        }
    }
}

} // verus!
