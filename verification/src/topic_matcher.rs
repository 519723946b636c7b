//! Topic-filter validation and wildcard matching.
//!
//! A filter is split on `'/'` into levels. `'+'` matches exactly one topic
//! level; `'#'` matches every remaining topic level, including zero, and is
//! only valid as the final level of a filter.

use vstd::prelude::*;
use vstd::string::StrSliceExecFns;

use crate::types::error::Error;

verus! {

/// The index of the first `'/'` in `s`, or `s.len()` if there is none.
pub open spec fn find_slash(s: Seq<char>) -> nat
    decreases s.len(),
{
    if s.len() == 0 {
        0
    } else if s[0] == '/' {
        0
    } else {
        1 + find_slash(s.drop_first())
    }
}

/// If no character of `prefix` is a slash, the first slash of
/// `prefix + '/' + rest` sits right after the prefix.
proof fn lemma_find_slash_after_prefix(prefix: Seq<char>, rest: Seq<char>)
    requires
        forall|i: int| 0 <= i < prefix.len() ==> prefix[i] != '/',
    ensures
        find_slash(prefix + seq!['/'] + rest) == prefix.len(),
    decreases prefix.len(),
{
    let s = prefix + seq!['/'] + rest;
    if prefix.len() == 0 {
        assert(s[0] == '/');
    } else {
        assert(s[0] == prefix[0]);
        lemma_find_slash_after_prefix(prefix.drop_first(), rest);
        assert(s.drop_first() =~= prefix.drop_first() + seq!['/'] + rest);
    }
}

/// If no character of `s` is a slash, it has no first slash.
proof fn lemma_find_slash_none(s: Seq<char>)
    requires
        forall|i: int| 0 <= i < s.len() ==> s[i] != '/',
    ensures
        find_slash(s) == s.len(),
    decreases s.len(),
{
    if s.len() > 0 {
        lemma_find_slash_none(s.drop_first());
    }
}

/// The levels of a topic string: the segments between slashes, in order.
/// The empty string has one empty level, and every slash separates two
/// levels, so adjacent or trailing slashes yield empty levels.
pub open spec fn split_levels(s: Seq<char>) -> Seq<Seq<char>>
    decreases s.len(),
{
    let i = find_slash(s);
    if i >= s.len() {
        seq![s]
    } else {
        seq![s.take(i as int)] + split_levels(s.skip(i as int + 1))
    }
}

/// A string without slashes is one single level.
proof fn lemma_split_levels_single(s: Seq<char>)
    requires
        forall|i: int| 0 <= i < s.len() ==> s[i] != '/',
    ensures
        split_levels(s) == seq![s],
{
    lemma_find_slash_none(s);
}

/// Splitting at the first slash: a slash-free prefix becomes one level and
/// the remainder is split on its own.
proof fn lemma_split_levels_step(prefix: Seq<char>, rest: Seq<char>)
    requires
        forall|i: int| 0 <= i < prefix.len() ==> prefix[i] != '/',
    ensures
        split_levels(prefix + seq!['/'] + rest) == seq![prefix] + split_levels(rest),
{
    let s = prefix + seq!['/'] + rest;
    lemma_find_slash_after_prefix(prefix, rest);
    assert(s.take(prefix.len() as int) =~= prefix);
    assert(s.skip(prefix.len() as int + 1) =~= rest);
}

/// Level-by-level matching of filter levels against topic levels:
/// `'#'` matches everything that remains, `'+'`
/// consumes one position on both sides whether or not a topic level is
/// present, equal literals advance both sides, and a fully consumed filter
/// matches only a fully consumed topic.
pub open spec fn match_levels(filter: Seq<Seq<char>>, topic: Seq<Seq<char>>) -> bool
    decreases filter.len(),
{
    if filter.len() == 0 {
        topic.len() == 0
    } else if filter[0] == seq!['#'] {
        true
    } else if filter[0] == seq!['+'] {
        match_levels(
            filter.drop_first(),
            if topic.len() == 0 {
                topic
            } else {
                topic.drop_first()
            },
        )
    } else if topic.len() == 0 {
        false
    } else if filter[0] == topic[0] {
        match_levels(filter.drop_first(), topic.drop_first())
    } else {
        false
    }
}

/// Whether the filter matches the topic: both are split on `'/'` and the
/// levels are matched pairwise.
pub open spec fn spec_matches(filter: Seq<char>, topic: Seq<char>) -> bool {
    match_levels(split_levels(filter), split_levels(topic))
}

/// A valid filter never mixes a wildcard with other characters in one level,
/// and carries `'#'` only as its final level.
pub open spec fn spec_valid_filter(filter: Seq<char>) -> bool {
    let levels = split_levels(filter);
    forall|i: int|
        0 <= i < levels.len() ==> {
            &&& ((#[trigger] levels[i]).contains('+') || levels[i].contains('#')) ==> levels[i].len()
                == 1
            &&& levels[i].contains('#') ==> i == levels.len() - 1
        }
}

/// The views of a sequence of character vectors.
pub open spec fn level_views(v: Seq<Vec<char>>) -> Seq<Seq<char>> {
    Seq::new(v.len(), |i: int| v[i]@)
}

/// The characters of a string, as a vector.
fn str_chars(s: &str) -> (r: Vec<char>)
    ensures
        r@ == s@,
{
    let n = s.unicode_len();
    let mut r: Vec<char> = Vec::new();
    let mut i: usize = 0;
    while i < n
        invariant
            i <= n,
            n == s@.len(),
            r@ == s@.take(i as int),
        decreases n - i,
    {
        r.push(s.get_char(i));
        proof {
            assert(r@ =~= s@.take(i + 1));
        }
        i += 1;
    }
    proof {
        assert(s@.take(n as int) =~= s@);
    }
    r
}

/// Splits a character sequence on `'/'` into its levels.
fn split_chars(s: &Vec<char>) -> (r: Vec<Vec<char>>)
    ensures
        level_views(r@) == split_levels(s@),
{
    let mut levels: Vec<Vec<char>> = Vec::new();
    let mut cur: Vec<char> = Vec::new();
    let mut i: usize = 0;
    proof {
        assert(cur@ + s@.skip(0) =~= s@);
        assert(level_views(levels@) + split_levels(s@) =~= split_levels(s@));
    }
    while i < s.len()
        invariant
            i <= s.len(),
            forall|j: int| 0 <= j < cur@.len() ==> cur@[j] != '/',
            split_levels(s@) == level_views(levels@) + split_levels(cur@ + s@.skip(i as int)),
        decreases s.len() - i,
    {
        let ghost old_levels = level_views(levels@);
        let ghost old_cur = cur@;
        let c = s[i];
        if c == '/' {
            proof {
                assert(old_cur + s@.skip(i as int) =~= old_cur + seq!['/'] + s@.skip(i + 1));
                lemma_split_levels_step(old_cur, s@.skip(i + 1));
            }
            levels.push(cur);
            cur = Vec::new();
            proof {
                assert(level_views(levels@) =~= old_levels + seq![old_cur]);
                assert(cur@ + s@.skip(i + 1) =~= s@.skip(i + 1));
            }
        } else {
            cur.push(c);
            proof {
                assert(cur@ + s@.skip(i + 1) =~= old_cur + s@.skip(i as int));
            }
        }
        i += 1;
    }
    proof {
        assert(cur@ + s@.skip(s@.len() as int) =~= cur@);
        lemma_split_levels_single(cur@);
    }
    let ghost done = level_views(levels@);
    let ghost last = cur@;
    levels.push(cur);
    proof {
        assert(level_views(levels@) =~= done + seq![last]);
    }
    levels
}

/// Whether the level consists of exactly the one character `c`.
fn level_is_char(level: &Vec<char>, c: char) -> (r: bool)
    ensures
        r == (level@ == seq![c]),
{
    proof {
        if level@.len() == 1 && level@[0] == c {
            assert(level@ =~= seq![c]);
        }
    }
    level.len() == 1 && level[0] == c
}

/// Whether the level contains the character `c`.
fn level_contains(level: &Vec<char>, c: char) -> (r: bool)
    ensures
        r == level@.contains(c),
{
    let mut i: usize = 0;
    while i < level.len()
        invariant
            i <= level.len(),
            forall|j: int| 0 <= j < i ==> level@[j] != c,
        decreases level.len() - i,
    {
        if level[i] == c {
            return true;
        }
        i += 1;
    }
    false
}

/// Whether two levels hold the same characters.
fn levels_eq(a: &Vec<char>, b: &Vec<char>) -> (r: bool)
    ensures
        r == (a@ == b@),
{
    if a.len() != b.len() {
        return false;
    }
    let mut i: usize = 0;
    while i < a.len()
        invariant
            i <= a.len(),
            a@.len() == b@.len(),
            forall|j: int| 0 <= j < i ==> a@[j] == b@[j],
        decreases a.len() - i,
    {
        if a[i] != b[i] {
            return false;
        }
        i += 1;
    }
    proof {
        assert(a@ =~= b@);
    }
    true
}

/// Evaluates a filter against a topic at the matching layer alone, with no
/// validation: a raw filter may carry `'#'` anywhere, and every `'#'` level
/// matches all remaining topic levels.
pub fn topic_matches(topic_filter: &str, msg_topic: &str) -> (r: bool)
    ensures
        r == spec_matches(topic_filter@, msg_topic@),
{
    let filter_chars = str_chars(topic_filter);
    let topic_chars = str_chars(msg_topic);
    let f = split_chars(&filter_chars);
    let t = split_chars(&topic_chars);
    let ghost fv = level_views(f@);
    let ghost tv = level_views(t@);
    proof {
        assert(fv.skip(0) =~= fv);
        assert(tv.skip(0) =~= tv);
        if t@.len() == 0 {
            assert(tv.skip(tv.len() as int) =~= tv);
        }
    }
    let mut i: usize = 0;
    while i < f.len()
        invariant
            i <= f.len(),
            fv == level_views(f@),
            tv == level_views(t@),
            fv.len() == f.len(),
            tv.len() == t.len(),
            spec_matches(topic_filter@, msg_topic@) == match_levels(
                fv.skip(i as int),
                tv.skip(if i < t.len() {
                    i as int
                } else {
                    tv.len() as int
                }),
            ),
        decreases f.len() - i,
    {
        let ghost j: int = if i < t.len() {
            i as int
        } else {
            tv.len() as int
        };
        proof {
            assert(fv.skip(i as int)[0] == fv[i as int]);
        }
        if level_is_char(&f[i], '#') {
            return true;
        }
        if level_is_char(&f[i], '+') {
            proof {
                assert(fv.skip(i as int).drop_first() =~= fv.skip(i + 1));
                if j < tv.len() {
                    assert(tv.skip(j).drop_first() =~= tv.skip(j + 1));
                } else {
                    assert(tv.skip(j).len() == 0);
                }
            }
            i += 1;
        } else {
            if i < t.len() && levels_eq(&f[i], &t[i]) {
                proof {
                    assert(tv.skip(j)[0] == tv[j]);
                    assert(fv.skip(i as int).drop_first() =~= fv.skip(i + 1));
                    assert(tv.skip(j).drop_first() =~= tv.skip(j + 1));
                }
                i += 1;
            } else {
                proof {
                    if i >= t.len() {
                        assert(tv.skip(j).len() == 0);
                    } else {
                        assert(tv.skip(j)[0] == tv[j]);
                    }
                }
                return false;
            }
        }
    }
    proof {
        assert(fv.skip(f.len() as int).len() == 0);
    }
    t.len() <= f.len()
}

/// A validated topic filter, constructed only through the validating
/// factory [`TopicMatcher::new`]; immutable once constructed.
#[derive(Default, Debug, Clone, Copy)]
pub struct TopicMatcher {
    topic_filter: &'static str,
}

impl TopicMatcher {
    /// The characters of the stored filter.
    pub closed spec fn filter(self) -> Seq<char> {
        self.topic_filter@
    }

    /// Validates a topic filter and compiles it into a matcher. Fails, and
    /// reports the offending filter, if any level mixes a wildcard with
    /// other characters or a `'#'` level is not the final level.
    pub fn new(topic_filter: &'static str) -> (r: Result<Self, Error>)
        ensures
            r is Ok <==> spec_valid_filter(topic_filter@),
            r matches Ok(m) ==> m.filter() == topic_filter@,
            r matches Err(e) ==> e == Error::InvalidTopicMatcherError(topic_filter),
    {
        let chars = str_chars(topic_filter);
        let levels = split_chars(&chars);
        let ghost lv = level_views(levels@);
        let mut i: usize = 0;
        while i < levels.len()
            invariant
                i <= levels.len(),
                lv == level_views(levels@),
                lv.len() == levels.len(),
                lv == split_levels(topic_filter@),
                forall|j: int|
                    0 <= j < i ==> {
                        &&& ((#[trigger] lv[j]).contains('+') || lv[j].contains('#')) ==> lv[j].len()
                            == 1
                        &&& lv[j].contains('#') ==> j == lv.len() - 1
                    },
            decreases levels.len() - i,
        {
            let has_plus = level_contains(&levels[i], '+');
            let has_hash = level_contains(&levels[i], '#');
            if (has_plus || has_hash) && levels[i].len() != 1 {
                proof {
                    assert(lv[i as int] == levels@[i as int]@);
                    assert(split_levels(topic_filter@)[i as int] == lv[i as int]);
                }
                return Err(Error::InvalidTopicMatcherError(topic_filter));
            }
            if has_hash && i + 1 != levels.len() {
                proof {
                    assert(lv[i as int] == levels@[i as int]@);
                    assert(split_levels(topic_filter@)[i as int] == lv[i as int]);
                }
                return Err(Error::InvalidTopicMatcherError(topic_filter));
            }
            i += 1;
        }
        Ok(TopicMatcher { topic_filter })
    }

    /// Checks whether a message topic matches the validated topic filter.
    pub fn matches(&self, msg_topic: &str) -> (r: bool)
        ensures
            r == spec_matches(self.filter(), msg_topic@),
    {
        topic_matches(self.topic_filter, msg_topic)
    }
}

} // verus!

