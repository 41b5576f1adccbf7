//! Protected-path patterns and first-match path evaluation.
//!
//! Patterns use the glob crate's default matching: case-sensitive, `*` and `?`
//! also match `/`, `**` crosses path segments, and a pattern must match the
//! whole path.
use vstd::prelude::*;

verus! {

#[verifier::external_type_specification]
#[verifier::external_body]
pub struct ExGlobPattern(glob::Pattern);

/// Whether `glob::Pattern::new` accepts the text.
pub uninterp spec fn glob_compiles(text: Seq<char>) -> bool;

/// Whether the pattern compiled from `text` matches `path` under the default options.
pub uninterp spec fn glob_matches(text: Seq<char>, path: Seq<char>) -> bool;

/// Relies on `glob::Pattern::new`: it accepts or rejects the text by its syntax alone.
#[verifier::external_body]
fn compile_glob(text: &str) -> (r: Option<glob::Pattern>)
    ensures
        r is Some <==> glob_compiles(text@),
{
    glob::Pattern::new(text).ok()
}

/// A compiled path pattern together with the text it was compiled from.
pub struct PathPattern {
    text: String,
    compiled: glob::Pattern,
}

impl View for PathPattern {
    type V = Seq<char>;

    closed spec fn view(&self) -> Seq<char> {
        self.text@
    }
}

impl PathPattern {
    /// Compiles `text`; `None` when it is not a valid pattern.
    pub fn new(text: &str) -> (r: Option<PathPattern>)
        ensures
            r is Some <==> glob_compiles(text@),
            r is Some ==> r->Some_0@ == text@,
    {
        match compile_glob(text) {
            Some(compiled) => Some(PathPattern { text: text.to_owned(), compiled }),
            None => None,
        }
    }

    /// The text the pattern was compiled from.
    pub fn as_str(&self) -> (r: &str)
        ensures
            r@ == self@,
    {
        self.text.as_str()
    }

    /// Relies on `glob::Pattern::matches`, applied to the pattern that
    /// `new` compiled from this pattern's text.
    #[verifier::external_body]
    pub(crate) fn matches(&self, path: &str) -> (r: bool)
        ensures
            r == glob_matches(self@, path@),
    {
        self.compiled.matches(path)
    }
}

/// The texts of a list of patterns.
pub open spec fn pattern_texts(pats: Seq<PathPattern>) -> Seq<Seq<char>> {
    pats.map_values(|p: PathPattern| p@)
}

/// The index of the first pattern, in order, that matches `path`.
pub open spec fn first_match_of(pats: Seq<Seq<char>>, path: Seq<char>) -> Option<int>
    decreases pats.len(),
{
    if pats.len() == 0 {
        None
    } else {
        match first_match_of(pats.drop_last(), path) {
            Some(i) => Some(i),
            None => if glob_matches(pats.last(), path) {
                Some(pats.len() - 1)
            } else {
                None
            },
        }
    }
}

/// The first match is a matching pattern with no matching pattern before it,
/// and there is none exactly when no pattern matches.
pub proof fn lemma_first_match(pats: Seq<Seq<char>>, path: Seq<char>)
    ensures
        first_match_of(pats, path) is None <==> forall|j: int|
            0 <= j < pats.len() ==> !glob_matches(#[trigger] pats[j], path),
        first_match_of(pats, path) is Some ==> {
            let i = first_match_of(pats, path)->Some_0;
            &&& 0 <= i < pats.len()
            &&& glob_matches(pats[i], path)
            &&& forall|j: int| 0 <= j < i ==> !glob_matches(#[trigger] pats[j], path)
        },
    decreases pats.len(),
{
    if pats.len() > 0 {
        let prev = pats.drop_last();
        lemma_first_match(prev, path);
        assert forall|j: int| 0 <= j < prev.len() implies prev[j] == pats[j] by {}
    }
}

/// Order decides among overlapping patterns: where pattern `i` matches and no
/// pattern before it does, pattern `i` is the one chosen, whatever matches after it.
pub proof fn lemma_first_in_order_wins(pats: Seq<Seq<char>>, path: Seq<char>, i: int)
    requires
        0 <= i < pats.len(),
        glob_matches(pats[i], path),
        forall|j: int| 0 <= j < i ==> !glob_matches(#[trigger] pats[j], path),
    ensures
        first_match_of(pats, path) == Some(i),
{
    lemma_first_match(pats, path);
    if first_match_of(pats, path) is Some {
        let k = first_match_of(pats, path)->Some_0;
        assert(!(k < i));
        assert(!(i < k));
    }
}

/// The index of the first pattern, in configured order, that matches `path`.
pub fn first_match(pats: &Vec<PathPattern>, path: &str) -> (r: Option<usize>)
    ensures
        r matches Some(i) ==> first_match_of(pattern_texts(pats@), path@) == Some(i as int),
        r is None ==> first_match_of(pattern_texts(pats@), path@) is None,
{
    let ghost texts = pattern_texts(pats@);
    let mut i: usize = 0;
    while i < pats.len()
        invariant
            i <= pats@.len(),
            texts == pattern_texts(pats@),
            first_match_of(texts.take(i as int), path@) is None,
        decreases pats.len() - i,
    {
        proof {
            assert(texts.take(i + 1).drop_last() =~= texts.take(i as int));
            lemma_first_match(texts.take(i as int), path@);
            assert forall|j: int| 0 <= j < i implies !glob_matches(#[trigger] texts[j], path@) by {
                assert(texts.take(i as int)[j] == texts[j]);
            }
        }
        if pats[i].matches(path) {
            proof {
                lemma_first_in_order_wins(texts, path@, i as int);
            }
            return Some(i);
        }
        i = i + 1;
    }
    assert(texts.take(i as int) =~= texts);
    None
}

/// Whether any pattern matches `path`.
pub fn matches_any(pats: &Vec<PathPattern>, path: &str) -> (r: bool)
    ensures
        r <==> exists|j: int|
            0 <= j < pats@.len() && glob_matches(#[trigger] pattern_texts(pats@)[j], path@),
{
    proof {
        lemma_first_match(pattern_texts(pats@), path@);
    }
    first_match(pats, path).is_some()
}

} // verus!
