//! Topics: how the names given on the command line are made ready, and
//! which recorded topics a replay then publishes.

use vstd::prelude::*;

verus! {

/// A topic under the root: a topic that starts with `/` gets `rt` put
/// before it, and any other stays as it is.
pub open spec fn rooted(topic: Seq<char>) -> Seq<char> {
    if topic.len() > 0 && topic[0] == '/' {
        seq!['r', 't'] + topic
    } else {
        topic
    }
}

/// A topic as the recording names it: a topic that starts with `rt/` loses
/// the `rt`, and any other stays as it is.
pub open spec fn unrooted(topic: Seq<char>) -> Seq<char> {
    if topic.len() >= 3 && topic[0] == 'r' && topic[1] == 't' && topic[2] == '/' {
        topic.skip(2)
    } else {
        topic
    }
}

/// The texts of a list of strings.
pub open spec fn texts(topics: Seq<String>) -> Seq<Seq<char>> {
    topics.map_values(|topic: String| topic@)
}

/// Topics as the recording names them, without those that are empty.
pub open spec fn sanitized(topics: Seq<Seq<char>>) -> Seq<Seq<char>> {
    topics.map_values(|topic: Seq<char>| unrooted(topic)).filter(
        |topic: Seq<char>| topic.len() > 0,
    )
}

/// Whether one text stands before another, or is the same, in the order of
/// strings: the first character in which they differ decides, by its code
/// point, and a text stands before every text that it starts.
pub open spec fn text_le(a: Seq<char>, b: Seq<char>) -> bool
    decreases a.len(),
{
    if a.len() == 0 {
        true
    } else if b.len() == 0 {
        false
    } else if a[0] != b[0] {
        (a[0] as u32) < (b[0] as u32)
    } else {
        text_le(a.skip(1), b.skip(1))
    }
}

/// Whether a list of strings is in the order of strings.
pub open spec fn sorted(topics: Seq<String>) -> bool {
    forall|i: int, j: int|
        0 <= i < j < topics.len() ==> text_le((#[trigger] topics[i])@, (#[trigger] topics[j])@)
}

/// Whether a list of strings holds a text.
pub open spec fn holds(topics: Seq<String>, topic: Seq<char>) -> bool {
    exists|i: int| 0 <= i < topics.len() && (#[trigger] topics[i])@ == topic
}

/// Whether a replay publishes a topic: it is one of the topics asked for,
/// or none was asked for, and it is not one of the topics to ignore.
pub open spec fn selected(topics: Seq<String>, ignore: Seq<String>, topic: Seq<char>) -> bool {
    (topics.len() == 0 || holds(topics, topic)) && !holds(ignore, topic)
}

/// Sorts strings with `Vec::sort`, which orders by `Ord`. The contract
/// says that the result is in the order of strings, which for `String` is
/// the order of code points, and holds the same strings as before, each as
/// often.
#[verifier::external_body]
fn sort_topics(topics: &mut Vec<String>)
    ensures
        sorted(final(topics)@),
        texts(final(topics)@).to_multiset() == texts(old(topics)@).to_multiset(),
{
    topics.sort();
}

/// The topic to register for a name given on the command line: the name
/// under the root. An empty name names no topic.
pub fn rooted_topic(topic: &str) -> (r: Option<String>)
    ensures
        match r {
            Some(name) => topic@.len() > 0 && name@ == rooted(topic@),
            None => topic@.len() == 0,
        },
{
    if topic.unicode_len() == 0 {
        return None;
    }
    if topic.get_char(0) == '/' {
        proof {
            reveal_strlit("rt");
        }
        let name = "rt".to_owned().concat(topic);
        assert(name@ =~= rooted(topic@));
        Some(name)
    } else {
        Some(topic.to_owned())
    }
}

/// Whether a list of strings holds a text.
fn contains_topic(topics: &Vec<String>, topic: &String) -> (found: bool)
    ensures
        found == holds(topics@, topic@),
{
    let mut i: usize = 0;
    while i < topics.len()
        invariant
            i <= topics.len(),
            forall|j: int| 0 <= j < i ==> (#[trigger] topics[j])@ != topic@,
        decreases topics.len() - i,
    {
        if topics[i] == *topic {
            return true;
        }
        i = i + 1;
    }
    false
}

/// Notes a topic in a list of the topics seen, and says whether it is new:
/// a topic that the list holds is not added again.
pub fn note_topic(seen: &mut Vec<String>, topic: &str) -> (fresh: bool)
    ensures
        fresh == !holds(old(seen)@, topic@),
        fresh ==> texts(final(seen)@) == texts(old(seen)@).push(topic@),
        !fresh ==> final(seen)@ == old(seen)@,
{
    let topic = topic.to_owned();
    if contains_topic(seen, &topic) {
        return false;
    }
    seen.push(topic);
    assert(texts(seen@) =~= texts(old(seen)@).push(topic@));
    true
}

/// Whether a replay publishes a recorded topic.
pub fn selects(topics: &Vec<String>, ignore: &Vec<String>, topic: &str) -> (publish: bool)
    ensures
        publish == selected(topics@, ignore@, topic@),
{
    let topic = topic.to_owned();
    let asked = topics.len() == 0 || contains_topic(topics, &topic);
    asked && !contains_topic(ignore, &topic)
}

/// Makes a list of topics ready: each topic that starts with `rt/` loses
/// the `rt`, empty topics are dropped, and what is left is put in the
/// order of strings.
pub fn sanitize_topics(topics: &mut Vec<String>)
    ensures
        sorted(final(topics)@),
        texts(final(topics)@).to_multiset() == sanitized(texts(old(topics)@)).to_multiset(),
{
    let mut kept: Vec<String> = Vec::new();
    let mut i: usize = 0;
    let ghost unroot = |topic: Seq<char>| unrooted(topic);
    let ghost filled = |topic: Seq<char>| topic.len() > 0;
    proof {
        reveal(Seq::filter);
        assert(texts(topics@.take(0)) =~= Seq::<Seq<char>>::empty());
        assert(texts(kept@) =~= Seq::<Seq<char>>::empty());
    }
    while i < topics.len()
        invariant
            i <= topics.len(),
            unroot == |topic: Seq<char>| unrooted(topic),
            filled == |topic: Seq<char>| topic.len() > 0,
            texts(kept@) == texts(topics@.take(i as int)).map_values(unroot).filter(filled),
        decreases topics.len() - i,
    {
        let topic = topics[i].as_str();
        let len = topic.unicode_len();
        let name = if len >= 3 && topic.get_char(0) == 'r' && topic.get_char(1) == 't'
            && topic.get_char(2) == '/' {
            topic.substring_char(2, len).to_owned()
        } else {
            topic.to_owned()
        };
        assert(name@ =~= unrooted(topic@));
        let ghost before = texts(topics@.take(i as int)).map_values(unroot);
        let ghost after = texts(topics@.take(i + 1)).map_values(unroot);
        let ghost had = texts(kept@);
        proof {
            reveal(Seq::filter);
            assert(after =~= before.push(name@));
            assert(after.drop_last() =~= before);
        }
        if name.as_str().unicode_len() > 0 {
            kept.push(name);
            assert(texts(kept@) =~= had.push(name@));
        }
        i = i + 1;
    }
    assert(topics@.take(i as int) =~= topics@);
    sort_topics(&mut kept);
    *topics = kept;
}

} // verus!
