use vstd::prelude::*;
use crate::text::{push_char, push_chars, to_chars};

verus! {

/// The character that separates the components of a path.
pub const SEPARATOR: char = '/';

/// What a partial path asks to complete: the directory to list and the
/// beginning of the entry's name.
pub struct CompletionQuery {
    pub directory: String,
    pub fragment: String,
}

/// The position of the last separator in `partial`, or -1 if it has none.
pub open spec fn last_separator(partial: Seq<char>) -> int
    decreases partial.len(),
{
    if partial.len() == 0 {
        -1
    } else if partial.last() == SEPARATOR {
        partial.len() - 1
    } else {
        last_separator(partial.drop_last())
    }
}

/// What stands before the last separator of `partial`.
pub open spec fn directory_of(partial: Seq<char>) -> Seq<char> {
    partial.take(last_separator(partial))
}

/// What stands behind the last separator of `partial`.
pub open spec fn fragment_of(partial: Seq<char>) -> Seq<char> {
    partial.skip(last_separator(partial) + 1)
}

/// A partial path can be completed when it holds a separator and does not
/// end in one.
pub open spec fn completable(partial: Seq<char>) -> bool {
    partial.contains(SEPARATOR) && partial.last() != SEPARATOR
}

/// `partial` is `directory`, a separator and `fragment`, where `fragment` is
/// a non-empty piece of a name.
pub open spec fn splits_into(partial: Seq<char>, directory: Seq<char>, fragment: Seq<char>) -> bool {
    &&& partial == directory + seq![SEPARATOR] + fragment
    &&& !fragment.contains(SEPARATOR)
    &&& fragment.len() > 0
}

/// `last_separator` gives a position of a separator behind which there is no
/// other, and -1 exactly when there is no separator at all.
pub proof fn lemma_last_separator(partial: Seq<char>)
    ensures
        -1 <= last_separator(partial) < partial.len(),
        last_separator(partial) >= 0 ==> partial[last_separator(partial)] == SEPARATOR,
        forall|j: int| last_separator(partial) < j < partial.len() ==> partial[j] != SEPARATOR,
        last_separator(partial) >= 0 <==> partial.contains(SEPARATOR),
    decreases partial.len(),
{
    if partial.len() > 0 && partial.last() != SEPARATOR {
        let shorter = partial.drop_last();
        lemma_last_separator(shorter);
        assert forall|j: int| last_separator(partial) < j < partial.len() implies partial[j]
            != SEPARATOR by {
            if j < shorter.len() {
                assert(shorter[j] == partial[j]);
            }
        }
    }
}

/// The split of a partial path is unique: `partial` splits into a directory
/// and a fragment exactly when it can be completed and they are what stands
/// before and behind its last separator.
pub proof fn lemma_split_is_unique(partial: Seq<char>, directory: Seq<char>, fragment: Seq<char>)
    ensures
        splits_into(partial, directory, fragment) <==> completable(partial) && directory
            == directory_of(partial) && fragment == fragment_of(partial),
{
    lemma_last_separator(partial);
    if splits_into(partial, directory, fragment) {
        let d = directory.len() as int;
        assert(partial[d] == SEPARATOR);
        assert(directory =~= directory_of(partial));
        assert(fragment =~= fragment_of(partial));
    }
    if completable(partial) && directory == directory_of(partial) && fragment == fragment_of(
        partial,
    ) {
        assert(partial =~= directory + seq![SEPARATOR] + fragment);
    }
}

/// Splits a partial path at its last separator.
///
/// Gives nothing when the path holds no separator or ends in one: there is
/// then no name to complete.
pub fn completion_query(partial: &str) -> (query: Option<CompletionQuery>)
    ensures
        query is Some <==> completable(partial@),
        query matches Some(q) ==> q.directory@ == directory_of(partial@) && q.fragment@
            == fragment_of(partial@),
{
    let chars = to_chars(partial);
    let mut end: usize = chars.len();
    assert(chars@.take(end as int) == chars@);
    while end > 0 && chars[end - 1] != SEPARATOR
        invariant
            end <= chars.len(),
            last_separator(chars@) == last_separator(chars@.take(end as int)),
        decreases end,
    {
        assert(chars@.take(end as int).drop_last() == chars@.take(end as int - 1));
        end -= 1;
    }
    proof {
        lemma_last_separator(partial@);
    }
    if end == 0 || end == chars.len() {
        return None;
    }
    let mut directory = String::new();
    push_chars(&mut directory, &chars, 0, end - 1);
    let mut fragment = String::new();
    push_chars(&mut fragment, &chars, end, chars.len());
    Some(CompletionQuery { directory, fragment })
}

/// The full path of the entry `name` of `directory`.
pub open spec fn full_path(directory: Seq<char>, name: Seq<char>) -> Seq<char> {
    directory + seq![SEPARATOR] + name
}

/// What a directory entry contributes to the matches: its full path when it
/// has a name and the name begins with `fragment`, nothing otherwise.
pub open spec fn candidate(directory: Seq<char>, fragment: Seq<char>, name: Option<Seq<char>>) -> Option<Seq<char>> {
    match name {
        Some(n) => if fragment.is_prefix_of(n) {
            Some(full_path(directory, n))
        } else {
            None
        },
        None => None,
    }
}

/// The full paths of the entries whose name begins with `fragment`, in the
/// order of the listing.
pub open spec fn matching_paths(
    directory: Seq<char>,
    fragment: Seq<char>,
    names: Seq<Option<Seq<char>>>,
) -> Seq<Seq<char>> {
    names.filter_map(|name: Option<Seq<char>>| candidate(directory, fragment, name))
}

/// The matches of a partial path against the listing of its directory.
///
/// There are none to speak of when the path cannot be completed or the
/// directory could not be listed.
pub open spec fn matches_of(partial: Seq<char>, listing: Option<Seq<Option<Seq<char>>>>) -> Option<Seq<Seq<char>>> {
    if !completable(partial) {
        None
    } else {
        match listing {
            None => None,
            Some(names) => Some(matching_paths(directory_of(partial), fragment_of(partial), names)),
        }
    }
}

/// Whether `name` begins with `fragment`, character by character.
pub fn starts_with(name: &Vec<char>, fragment: &Vec<char>) -> (b: bool)
    ensures
        b == fragment@.is_prefix_of(name@),
{
    if fragment.len() > name.len() {
        return false;
    }
    let mut i: usize = 0;
    while i < fragment.len()
        invariant
            i <= fragment.len() <= name.len(),
            forall|j: int| 0 <= j < i ==> fragment@[j] == name@[j],
        decreases fragment.len() - i,
    {
        if fragment[i] != name[i] {
            return false;
        }
        i += 1;
    }
    true
}

/// Collects the full paths of the entries of `directory` whose name begins
/// with `fragment`. An entry without a usable name is `None` and is skipped.
pub fn collect_matches(directory: &str, fragment: &str, names: &Vec<Option<String>>) -> (found: Vec<String>)
    ensures
        found.deep_view() == matching_paths(directory@, fragment@, names.deep_view()),
{
    let dir_chars = to_chars(directory);
    let frag_chars = to_chars(fragment);
    let ghost pick = |name: Option<Seq<char>>| candidate(directory@, fragment@, name);
    let ghost all = names.deep_view();
    let mut found: Vec<String> = Vec::new();
    let mut i: usize = 0;
    while i < names.len()
        invariant
            i <= names.len(),
            all == names.deep_view(),
            dir_chars@ == directory@,
            frag_chars@ == fragment@,
            pick == |name: Option<Seq<char>>| candidate(directory@, fragment@, name),
            found.deep_view() == all.take(i as int).filter_map(pick),
        decreases names.len() - i,
    {
        proof {
            all.lemma_filter_map_take_succ(pick, i as int);
        }
        if let Some(name) = &names[i] {
            let name_chars = to_chars(name.as_str());
            if starts_with(&name_chars, &frag_chars) {
                let mut path = String::new();
                push_chars(&mut path, &dir_chars, 0, dir_chars.len());
                push_char(&mut path, SEPARATOR);
                push_chars(&mut path, &name_chars, 0, name_chars.len());
                assert(path@ =~= full_path(directory@, name@));
                found.push(path);
            }
        }
        i += 1;
    }
    assert(all.take(names.len() as int) == all);
    found
}

/// Computes the completions of `partial` from the listing of its directory:
/// the names of the entries, or `None` where the directory could not be read.
pub fn compute_matches(partial: &str, listing: Option<&Vec<Option<String>>>) -> (found: Option<Vec<String>>)
    ensures
        found.deep_view() == matches_of(partial@, listing.deep_view()),
{
    match completion_query(partial) {
        None => None,
        Some(query) => match listing {
            None => None,
            Some(names) => Some(
                collect_matches(query.directory.as_str(), query.fragment.as_str(), names),
            ),
        },
    }
}

/// `prefix` begins every one of `strings`.
pub open spec fn is_common_prefix(prefix: Seq<char>, strings: Seq<Seq<char>>) -> bool {
    forall|i: int| 0 <= i < strings.len() ==> prefix.is_prefix_of(#[trigger] strings[i])
}

/// `prefix` begins every one of `strings`, and nothing longer does.
pub open spec fn is_longest_common_prefix(prefix: Seq<char>, strings: Seq<Seq<char>>) -> bool {
    &&& is_common_prefix(prefix, strings)
    &&& forall|other: Seq<char>| #[trigger]
        is_common_prefix(other, strings) ==> other.len() <= prefix.len()
}

/// The longest beginning that all of `strings` share; the empty string when
/// there are no strings.
pub open spec fn common_prefix(strings: Seq<Seq<char>>) -> Seq<char> {
    if strings.len() == 0 {
        Seq::empty()
    } else {
        choose|prefix: Seq<char>| is_longest_common_prefix(prefix, strings)
    }
}

/// Every string of `strings` has the character `c` at position `at`.
spec fn all_have(strings: Seq<Seq<char>>, at: int, c: char) -> bool {
    forall|k: int| 0 <= k < strings.len() ==> at < (#[trigger] strings[k]).len() && strings[k][at] == c
}

/// A non-empty list of strings has one longest common prefix only.
pub proof fn lemma_longest_common_prefix_is_unique(
    strings: Seq<Seq<char>>,
    p: Seq<char>,
    q: Seq<char>,
)
    requires
        strings.len() > 0,
        is_longest_common_prefix(p, strings),
        is_longest_common_prefix(q, strings),
    ensures
        p == q,
{
    assert(p.is_prefix_of(strings[0]));
    assert(q.is_prefix_of(strings[0]));
    assert(p =~= q);
}

/// The strings that the rows of characters spell.
spec fn rows(chars: Seq<Vec<char>>) -> Seq<Seq<char>> {
    chars.map_values(|row: Vec<char>| row@)
}

/// Whether every string has the character `c` at position `at`.
fn every_string_has(strings: &Vec<Vec<char>>, at: usize, c: char) -> (b: bool)
    ensures
        b == all_have(rows(strings@), at as int, c),
{
    let ghost all = rows(strings@);
    let mut k: usize = 0;
    while k < strings.len()
        invariant
            k <= strings.len(),
            all == rows(strings@),
            forall|j: int| 0 <= j < k ==> at < (#[trigger] all[j]).len() && all[j][at as int] == c,
        decreases strings.len() - k,
    {
        assert(all[k as int] == strings@[k as int]@);
        if at >= strings[k].len() || strings[k][at] != c {
            return false;
        }
        k += 1;
    }
    true
}

/// The longest beginning that all of `strings` share, compared character by
/// character; the empty string when there are no strings.
pub fn longest_common_prefix(strings: &Vec<String>) -> (prefix: String)
    ensures
        prefix@ == common_prefix(strings.deep_view()),
        strings.len() == 0 ==> prefix@.len() == 0,
        strings.len() > 0 ==> is_longest_common_prefix(prefix@, strings.deep_view()),
{
    if strings.len() == 0 {
        return String::new();
    }
    let ghost all = strings.deep_view();
    let mut chars: Vec<Vec<char>> = Vec::new();
    let mut i: usize = 0;
    while i < strings.len()
        invariant
            i <= strings.len(),
            all == strings.deep_view(),
            rows(chars@) == all.take(i as int),
        decreases strings.len() - i,
    {
        chars.push(to_chars(strings[i].as_str()));
        assert(all.take(i as int + 1) =~= all.take(i as int).push(all[i as int]));
        i += 1;
    }
    assert(all.take(strings.len() as int) == all);
    assert(chars@[0]@ == rows(chars@)[0]);
    let mut len: usize = 0;
    while len < chars[0].len() && every_string_has(&chars, len, chars[0][len])
        invariant
            rows(chars@) == all,
            all.len() > 0,
            chars@[0]@ == all[0],
            len <= all[0].len(),
            is_common_prefix(all[0].take(len as int), all),
        decreases all[0].len() - len,
    {
        assert(is_common_prefix(all[0].take(len as int + 1), all)) by {
            assert(all_have(all, len as int, all[0][len as int]));
        }
        len += 1;
    }
    let mut prefix = String::new();
    push_chars(&mut prefix, &chars[0], 0, len);
    proof {
        assert forall|other: Seq<char>| #[trigger]
            is_common_prefix(other, all) implies other.len() <= len by {
            if other.len() > len {
                // `other` begins the first string, and the string that ended the loop
                assert(other.is_prefix_of(all[0]));
                let k = choose|k: int|
                    0 <= k < all.len() && !(len < (#[trigger] all[k]).len() && all[k][len as int]
                        == all[0][len as int]);
                assert(other.is_prefix_of(all[k]));
                assert(all[0][len as int] == other[len as int]);
                assert(all[k][len as int] == other[len as int]);
            }
        }
        assert(is_longest_common_prefix(prefix@, all));
        lemma_longest_common_prefix_is_unique(all, prefix@, common_prefix(all));
    }
    prefix
}

} // verus!
