//! Placeholders of the form `{{NAME}}` and their replacement by the
//! values that an environment binds to the names.

use vstd::prelude::*;
use vstd::string::*;
use crate::text::{opt_text_view, pair_view, pairs_view, texts_view};

verus! {

/// The pattern of a placeholder: two opening braces, a name of one or
/// more word characters, two closing braces. The name is the first group.
pub const PLACEHOLDER_PATTERN: &'static str = "\\{\\{(\\w+)\\}\\}";

/// Whether a pattern is one that the regex engine accepts.
pub uninterp spec fn pattern_compiles(pattern: Seq<char>) -> bool;

/// The parts of `text` around the matches of `pattern`: what stands
/// before the first match, between each two, and after the last.
pub uninterp spec fn split_by(pattern: Seq<char>, text: Seq<char>) -> Seq<Seq<char>>;

/// The matches of `pattern` in `text`, from left to right, none
/// overlapping another: for each the matched text and, where the first
/// group took part in the match, what that group matched.
pub uninterp spec fn captures_of(pattern: Seq<char>, text: Seq<char>) -> Seq<
    (Seq<char>, Option<Seq<char>>),
>;

/// The view of a match: that of its text and that of its group.
pub open spec fn capture_view(found: (String, Option<String>)) -> (Seq<char>, Option<Seq<char>>) {
    (found.0@, opt_text_view(found.1))
}

/// The views of a list of matches.
pub open spec fn captures_view(found: Seq<(String, Option<String>)>) -> Seq<
    (Seq<char>, Option<Seq<char>>),
> {
    found.map_values(|m: (String, Option<String>)| capture_view(m))
}

/// The matched texts of a list of matches.
pub open spec fn matched_texts(found: Seq<(Seq<char>, Option<Seq<char>>)>) -> Seq<Seq<char>> {
    found.map_values(|m: (Seq<char>, Option<Seq<char>>)| m.0)
}

/// Pieces and fills put together in turn: each piece is followed by the
/// fill of the same position, as far as there is one.
pub open spec fn woven(pieces: Seq<Seq<char>>, fills: Seq<Seq<char>>) -> Seq<char>
    decreases pieces.len(),
{
    if pieces.len() == 0 {
        Seq::empty()
    } else {
        let last = pieces.len() - 1;
        woven(pieces.drop_last(), fills) + pieces[last] + if last < fills.len() {
            fills[last]
        } else {
            Seq::empty()
        }
    }
}

/// Compiles `pattern` with `regex::Regex::new` and walks `text` with
/// `Regex::split`. `None` stands for a pattern that does not compile.
/// Claimed of the pieces: they are what lies around the matches that
/// `Regex::captures_iter` finds, so that the text is the pieces and the
/// matched texts in turn.
#[verifier::external_body]
fn split_around_matches(pattern: &str, text: &str) -> (pieces: Option<Vec<String>>)
    ensures
        pieces is Some <==> pattern_compiles(pattern@),
        pieces matches Some(p) ==> {
            &&& texts_view(p@) == split_by(pattern@, text@)
            &&& woven(texts_view(p@), matched_texts(captures_of(pattern@, text@))) == text@
        },
{
    match regex::Regex::new(pattern) {
        Ok(re) => Some(re.split(text).map(|piece| piece.to_string()).collect()),
        Err(_) => None,
    }
}

/// Compiles `pattern` with `regex::Regex::new` and walks `text` with
/// `Regex::captures_iter`, handing out each match as its text and the
/// text of its first group. `None` stands for a pattern that does not
/// compile.
#[verifier::external_body]
fn find_captures(pattern: &str, text: &str) -> (found: Option<Vec<(String, Option<String>)>>)
    ensures
        found is Some <==> pattern_compiles(pattern@),
        found matches Some(f) ==> captures_view(f@) == captures_of(pattern@, text@),
{
    match regex::Regex::new(pattern) {
        Ok(re) => Some(
            re.captures_iter(text).map(
                |caps| (caps[0].to_string(), caps.get(1).map(|group| group.as_str().to_string())),
            ).collect(),
        ),
        Err(_) => None,
    }
}

/// The value that an environment binds to a name: that of the first
/// binding with this name.
pub open spec fn lookup(env: Seq<(Seq<char>, Seq<char>)>, name: Seq<char>) -> Option<Seq<char>>
    decreases env.len(),
{
    if env.len() == 0 {
        None
    } else if env[0].0 == name {
        Some(env[0].1)
    } else {
        lookup(env.drop_first(), name)
    }
}

/// Looks a name up in an environment.
pub fn lookup_binding<'a>(env: &'a Vec<(String, String)>, name: &str) -> (value: Option<&'a String>)
    ensures
        match value {
            Some(v) => lookup(pairs_view(env@), name@) == Some(v@),
            None => lookup(pairs_view(env@), name@) is None,
        },
{
    let wanted = String::from_str(name);
    let mut i: usize = 0;
    assert(pairs_view(env@).skip(0) =~= pairs_view(env@));
    while i < env.len()
        invariant
            i <= env.len(),
            wanted@ == name@,
            lookup(pairs_view(env@), name@) == lookup(pairs_view(env@).skip(i as int), name@),
        decreases env.len() - i,
    {
        let ghost rest = pairs_view(env@).skip(i as int);
        assert(rest.drop_first() =~= pairs_view(env@).skip(i + 1));
        if env[i].0 == wanted {
            return Some(&env[i].1);
        }
        i += 1;
    }
    None
}

/// What stands in place of one match: the value bound to the name that
/// its group holds, or the matched text itself where nothing is bound.
pub open spec fn replacement(
    env: Seq<(Seq<char>, Seq<char>)>,
    found: (Seq<char>, Option<Seq<char>>),
) -> Seq<char> {
    match found.1 {
        Some(name) => match lookup(env, name) {
            Some(value) => value,
            None => found.0,
        },
        None => found.0,
    }
}

/// What stands in place of each match of a list.
pub open spec fn replacements(
    env: Seq<(Seq<char>, Seq<char>)>,
    found: Seq<(Seq<char>, Option<Seq<char>>)>,
) -> Seq<Seq<char>> {
    found.map_values(|m: (Seq<char>, Option<Seq<char>>)| replacement(env, m))
}

/// Chooses what stands in place of one match.
pub fn resolve_placeholder<'a>(
    env: &'a Vec<(String, String)>,
    found: &'a (String, Option<String>),
) -> (fill: &'a String)
    ensures
        fill@ == replacement(pairs_view(env@), capture_view(*found)),
{
    match &found.1 {
        Some(name) => match lookup_binding(env, name.as_str()) {
            Some(value) => value,
            None => &found.0,
        },
        None => &found.0,
    }
}

/// Puts a text together again from the pieces around its matches, with
/// each match replaced by what the environment binds to its name.
pub fn weave_replacements(
    pieces: &Vec<String>,
    found: &Vec<(String, Option<String>)>,
    env: &Vec<(String, String)>,
) -> (out: String)
    ensures
        out@ == woven(texts_view(pieces@), replacements(pairs_view(env@), captures_view(found@))),
{
    let ghost fills = replacements(pairs_view(env@), captures_view(found@));
    let mut out = String::new();
    let mut i: usize = 0;
    while i < pieces.len()
        invariant
            i <= pieces.len(),
            fills == replacements(pairs_view(env@), captures_view(found@)),
            out@ == woven(texts_view(pieces@.take(i as int)), fills),
        decreases pieces.len() - i,
    {
        assert(texts_view(pieces@.take(i + 1)).drop_last() =~= texts_view(pieces@.take(i as int)));
        out.append(pieces[i].as_str());
        if i < found.len() {
            let fill = resolve_placeholder(env, &found[i]);
            out.append(fill.as_str());
        }
        i += 1;
    }
    assert(pieces@.take(pieces.len() as int) =~= pieces@);
    out
}

/// Where each match is replaced by its own text, because no name found
/// is bound, the replacements are the matched texts: the text that is
/// put together is the one that was taken apart.
pub proof fn lemma_unbound_names_change_nothing(
    pieces: Seq<Seq<char>>,
    found: Seq<(Seq<char>, Option<Seq<char>>)>,
    env: Seq<(Seq<char>, Seq<char>)>,
)
    requires
        forall|i: int| 0 <= i < found.len() ==> replacement(env, #[trigger] found[i]) == found[i].0,
    ensures
        replacements(env, found) == matched_texts(found),
        woven(pieces, replacements(env, found)) == woven(pieces, matched_texts(found)),
{
    assert(replacements(env, found) =~= matched_texts(found));
}

/// A text with every placeholder replaced by the value that the
/// environment binds to its name; a placeholder whose name is not bound
/// stays as it is.
pub open spec fn substituted(text: Seq<char>, env: Seq<(Seq<char>, Seq<char>)>) -> Seq<char> {
    woven(
        split_by(PLACEHOLDER_PATTERN@, text),
        replacements(env, captures_of(PLACEHOLDER_PATTERN@, text)),
    )
}

/// Replaces every `{{NAME}}` in `text` by the value that `env` binds to
/// `NAME`, and leaves the placeholders of unbound names as they are.
/// `None` comes back only where the placeholder pattern cannot be used.
pub fn substitute_env_vars(text: &str, env: &Vec<(String, String)>) -> (out: Option<String>)
    ensures
        out is Some <==> pattern_compiles(PLACEHOLDER_PATTERN@),
        out matches Some(resolved) ==> resolved@ == substituted(text@, pairs_view(env@)),
        out matches Some(resolved) ==> {
            let found = captures_of(PLACEHOLDER_PATTERN@, text@);
            (forall|i: int|
                0 <= i < found.len() ==> replacement(pairs_view(env@), #[trigger] found[i])
                    == found[i].0) ==> resolved@ == text@
        },
        out matches Some(resolved) ==> (captures_of(PLACEHOLDER_PATTERN@, text@).len() == 0
            ==> resolved@ == text@),
{
    let pieces = split_around_matches(PLACEHOLDER_PATTERN, text);
    let found = find_captures(PLACEHOLDER_PATTERN, text);
    match (pieces, found) {
        (Some(pieces), Some(found)) => {
            proof {
                let matches = captures_of(PLACEHOLDER_PATTERN@, text@);
                if forall|i: int|
                    0 <= i < matches.len() ==> replacement(pairs_view(env@), #[trigger] matches[i])
                        == matches[i].0 {
                    lemma_unbound_names_change_nothing(
                        texts_view(pieces@),
                        matches,
                        pairs_view(env@),
                    );
                }
            }
            Some(weave_replacements(&pieces, &found, env))
        },
        _ => None,
    }
}

} // verus!
