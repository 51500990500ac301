//! The services behind topics: which system service publishes a topic, and
//! which services have to stop before topics are replayed.

use serde_json::Value;
use std::collections::HashMap;
use vstd::prelude::*;

verus! {

/// One entry of a table of services: a name, and the service behind it
/// where the table gives one as a string.
pub type Entry = (String, Option<String>);

/// The JSON object that a text holds, with each member's value where that
/// value is a string and `None` where it is anything else; `None` where the
/// text is not one JSON object.
pub uninterp spec fn json_object_strings(text: Seq<char>) -> Option<
    Map<Seq<char>, Option<Seq<char>>>,
>;

/// What an entry's value is, as characters.
pub open spec fn entry_value(entry: Entry) -> Option<Seq<char>> {
    match entry.1 {
        Some(service) => Some(service@),
        None => None,
    }
}

/// Whether the entry at `i` has the name `key`.
pub open spec fn names(entries: Seq<Entry>, i: int, key: Seq<char>) -> bool {
    0 <= i < entries.len() && entries[i].0@ == key
}

/// Whether no two entries have the same name.
pub open spec fn distinct_names(entries: Seq<Entry>) -> bool {
    forall|i: int, j: int|
        0 <= i < j < entries.len() ==> (#[trigger] entries[i]).0@ != (#[trigger] entries[j]).0@
}

/// The object that a list of entries stands for: each name with its value.
pub open spec fn object_of(entries: Seq<Entry>) -> Map<Seq<char>, Option<Seq<char>>> {
    Map::new(
        |key: Seq<char>| exists|i: int| names(entries, i, key),
        |key: Seq<char>| entry_value(entries[choose|i: int| names(entries, i, key)]),
    )
}

/// The services that an object gives: its members whose value is a string.
pub open spec fn services_in(object: Map<Seq<char>, Option<Seq<char>>>) -> Map<
    Seq<char>,
    Seq<char>,
> {
    Map::new(
        |key: Seq<char>| object.contains_key(key) && object[key] is Some,
        |key: Seq<char>| object[key].unwrap(),
    )
}

/// The name that stands for "no service".
pub open spec fn no_service() -> Seq<char> {
    seq!['N', 'O', 'N', 'E']
}

/// A topic without the root that it may start with: without `rt/`, or else
/// without one `/`.
pub open spec fn without_root(topic: Seq<char>) -> Seq<char> {
    if topic.len() >= 3 && topic[0] == 'r' && topic[1] == 't' && topic[2] == '/' {
        topic.skip(3)
    } else if topic.len() >= 1 && topic[0] == '/' {
        topic.skip(1)
    } else {
        topic
    }
}

/// Whether the first segment of a path is `n` characters long: there is no
/// `/` before `n`, and the path ends at `n` or has a `/` there.
pub open spec fn segment_ends(path: Seq<char>, n: int) -> bool {
    &&& 0 <= n <= path.len()
    &&& forall|j: int| 0 <= j < n ==> path[j] != '/'
    &&& n == path.len() || path[n] == '/'
}

/// The first segment of a path: what stands before its first `/`, or all
/// of it where it has none.
pub open spec fn first_segment(path: Seq<char>) -> Seq<char> {
    path.take(choose|n: int| segment_ends(path, n))
}

/// The service behind a topic: what the table gives for the first segment
/// of the topic without its root, and "no service" where it gives nothing.
pub open spec fn service_for(table: Map<Seq<char>, Seq<char>>, topic: Seq<char>) -> Seq<char> {
    let name = first_segment(without_root(topic));
    if table.contains_key(name) {
        table[name]
    } else {
        no_service()
    }
}

/// Whether a list of names holds a name.
pub open spec fn listed(services: Seq<String>, name: Seq<char>) -> bool {
    exists|i: int| 0 <= i < services.len() && (#[trigger] services[i])@ == name
}

/// Whether one of the first `upto` topics has the service `name` behind it.
pub open spec fn served(
    table: Map<Seq<char>, Seq<char>>,
    topics: Seq<String>,
    upto: int,
    name: Seq<char>,
) -> bool {
    exists|j: int| 0 <= j < upto && #[trigger] service_for(table, topics[j]@) == name
}

/// Whether no name stands twice in a list.
pub open spec fn distinct_services(services: Seq<String>) -> bool {
    forall|i: int, j: int|
        0 <= i < j < services.len() ==> (#[trigger] services[i])@ != (#[trigger] services[j])@
}

/// The first segment of a path is the only prefix that ends where the
/// segment ends.
pub proof fn lemma_first_segment(path: Seq<char>, n: int)
    requires
        segment_ends(path, n),
    ensures
        first_segment(path) == path.take(n),
{
    let m = choose|m: int| segment_ends(path, m);
    if m < n {
        assert(path[m] != '/');
    }
    if n < m {
        assert(path[n] != '/');
    }
}

/// Among entries with distinct names, the entry that has a name is the
/// only one, so the object gives that entry's value for the name.
pub proof fn lemma_object_entry(entries: Seq<Entry>, i: int)
    requires
        distinct_names(entries),
        0 <= i < entries.len(),
    ensures
        object_of(entries).contains_key(entries[i].0@),
        object_of(entries)[entries[i].0@] == entry_value(entries[i]),
{
    let key = entries[i].0@;
    assert(names(entries, i, key));
    let j = choose|j: int| names(entries, j, key);
    if j < i {
        assert(entries[j].0@ != entries[i].0@);
    }
    if i < j {
        assert(entries[i].0@ != entries[j].0@);
    }
}

/// Parses a JSON object with `serde_json::from_str`, as a map from strings
/// to JSON values, and hands its members out in no particular order. The
/// contract names what the text parses to and says that the members handed
/// out are that object's: no name twice, each with its value where the
/// value is a string. Nothing is said of what a given text parses to.
#[verifier::external_body]
fn parse_object(text: &str) -> (r: Option<Vec<Entry>>)
    ensures
        match r {
            Some(entries) => distinct_names(entries@) && json_object_strings(text@) == Some(
                object_of(entries@),
            ),
            None => json_object_strings(text@) is None,
        },
{
    let parsed: Result<HashMap<String, Value>, serde_json::Error> = serde_json::from_str(text);
    let members = match parsed {
        Ok(members) => members,
        Err(_) => return None,
    };
    Some(
        members.into_iter().map(
            |(name, value)| match value {
                Value::String(service) => (name, Some(service)),
                Value::Null | Value::Bool(_) | Value::Number(_) => (name, None),
                Value::Array(_) | Value::Object(_) => (name, None),
            },
        ).collect(),
    )
}

/// The table of the services behind topics.
pub struct ServiceHandler {
    entries: Vec<Entry>,
}

impl View for ServiceHandler {
    type V = Map<Seq<char>, Seq<char>>;

    closed spec fn view(&self) -> Map<Seq<char>, Seq<char>> {
        services_in(object_of(self.entries@))
    }
}

impl ServiceHandler {
    #[verifier::type_invariant]
    spec fn distinct(self) -> bool {
        distinct_names(self.entries@)
    }

    /// The table that a JSON object holds: each member whose value is a
    /// string is a service, under the member's name. `None` where the text
    /// is not one JSON object.
    pub fn new(json: &str) -> (r: Option<ServiceHandler>)
        ensures
            match r {
                Some(handler) => json_object_strings(json@) matches Some(object) && handler@
                    == services_in(object),
                None => json_object_strings(json@) is None,
            },
    {
        match parse_object(json) {
            Some(entries) => ServiceHandler::from_entries(entries),
            None => None,
        }
    }

    /// The table that a list of entries holds: each entry whose value is a
    /// string is a service, under the entry's name. `None` where two
    /// entries have the same name.
    pub fn from_entries(entries: Vec<Entry>) -> (r: Option<ServiceHandler>)
        ensures
            match r {
                Some(handler) => distinct_names(entries@) && handler@ == services_in(
                    object_of(entries@),
                ),
                None => !distinct_names(entries@),
            },
    {
        let mut j: usize = 0;
        while j < entries.len()
            invariant
                j <= entries.len(),
                forall|a: int, b: int|
                    0 <= a < b < j ==> (#[trigger] entries[a]).0@ != (#[trigger] entries[b]).0@,
            decreases entries.len() - j,
        {
            let mut i: usize = 0;
            while i < j
                invariant
                    i <= j < entries.len(),
                    forall|a: int| 0 <= a < i ==> (#[trigger] entries[a]).0@ != entries[j as int].0@,
                decreases j - i,
            {
                if entries[i].0 == entries[j].0 {
                    return None;
                }
                i = i + 1;
            }
            j = j + 1;
        }
        Some(ServiceHandler { entries })
    }

    /// The service behind a topic, or `NONE` where the table has none for
    /// it.
    pub fn topic_to_service(&self, topic: &str) -> (service: String)
        ensures
            service@ == service_for(self@, topic@),
    {
        proof {
            use_type_invariant(self);
        }
        let len = topic.unicode_len();
        let start: usize = if len >= 3 && topic.get_char(0) == 'r' && topic.get_char(1) == 't'
            && topic.get_char(2) == '/' {
            3
        } else if len >= 1 && topic.get_char(0) == '/' {
            1
        } else {
            0
        };
        let ghost path = without_root(topic@);
        assert(path == topic@.skip(start as int));
        let mut end: usize = start;
        while end < len && topic.get_char(end) != '/'
            invariant
                start <= end <= len,
                len == topic@.len(),
                path == topic@.skip(start as int),
                forall|j: int| 0 <= j < end - start ==> path[j] != '/',
            decreases len - end,
        {
            end = end + 1;
        }
        let name = topic.substring_char(start, end).to_owned();
        proof {
            lemma_first_segment(path, end - start);
            assert(name@ =~= path.take(end - start));
            assert(name@ == first_segment(without_root(topic@)));
        }
        let mut i: usize = 0;
        while i < self.entries.len()
            invariant
                i <= self.entries.len(),
                distinct_names(self.entries@),
                name@ == first_segment(without_root(topic@)),
                forall|j: int| 0 <= j < i ==> (#[trigger] self.entries[j]).0@ != name@,
            decreases self.entries.len() - i,
        {
            if self.entries[i].0 == name {
                proof {
                    lemma_object_entry(self.entries@, i as int);
                }
                match &self.entries[i].1 {
                    Some(service) => {
                        return service.clone();
                    },
                    None => {
                        proof {
                            reveal_strlit("NONE");
                        }
                        let none = "NONE".to_owned();
                        assert(none@ =~= no_service());
                        return none;
                    },
                }
            }
            i = i + 1;
        }
        proof {
            reveal_strlit("NONE");
            assert(!object_of(self.entries@).contains_key(name@)) by {
                if exists|j: int| names(self.entries@, j, name@) {
                    let j = choose|j: int| names(self.entries@, j, name@);
                    assert(self.entries[j].0@ != name@);
                }
            }
        }
        let none = "NONE".to_owned();
        assert(none@ =~= no_service());
        none
    }
    /// The services to stop before the topics are replayed: each service
    /// that stands behind one of the topics, once. A topic without a
    /// service adds nothing.
    pub fn stop_services(&self, topics: &Vec<String>) -> (services: Vec<String>)
        ensures
            distinct_services(services@),
            forall|name: Seq<char>| #[trigger]
                listed(services@, name) <==> name != no_service() && served(
                    self@,
                    topics@,
                    topics@.len() as int,
                    name,
                ),
    {
        let mut services: Vec<String> = Vec::new();
        let mut t: usize = 0;
        while t < topics.len()
            invariant
                t <= topics.len(),
                distinct_services(services@),
                forall|name: Seq<char>| #[trigger]
                    listed(services@, name) <==> name != no_service() && served(
                        self@,
                        topics@,
                        t as int,
                        name,
                    ),
            decreases topics.len() - t,
        {
            let service = self.topic_to_service(topics[t].as_str());
            let ghost before = services@;
            let ghost found = service@;
            proof {
                reveal_strlit("NONE");
            }
            let none = "NONE".to_owned();
            assert(none@ =~= no_service());
            let mut known = service == none;
            let mut i: usize = 0;
            while !known && i < services.len()
                invariant
                    i <= services.len(),
                    services@ == before,
                    found == service@,
                    known ==> found == no_service() || listed(before, found),
                    !known ==> found != no_service(),
                    !known ==> forall|j: int| 0 <= j < i ==> (#[trigger] before[j])@ != found,
                decreases services.len() - i + if known { 0int } else { 1int },
            {
                if services[i] == service {
                    known = true;
                } else {
                    i = i + 1;
                }
            }
            if !known {
                services.push(service);
            }
            proof {
                let after = services@;
                assert(served(self@, topics@, t + 1, found));
                assert forall|name: Seq<char>| #[trigger]
                    listed(after, name) <==> name != no_service() && served(
                        self@,
                        topics@,
                        t + 1,
                        name,
                    ) by {
                    if listed(before, name) {
                        let i = choose|i: int| 0 <= i < before.len() && before[i]@ == name;
                        assert(after[i]@ == name);
                        let j = choose|j: int|
                            0 <= j < t && service_for(self@, topics@[j]@) == name;
                        assert(served(self@, topics@, t + 1, name));
                    }
                    if listed(after, name) && !listed(before, name) {
                        let i = choose|i: int| 0 <= i < after.len() && after[i]@ == name;
                        assert(i == before.len());
                        assert(name == found);
                    }
                    if name != no_service() && served(self@, topics@, t + 1, name) {
                        let j = choose|j: int|
                            0 <= j < t + 1 && service_for(self@, topics@[j]@) == name;
                        if j < t {
                            assert(served(self@, topics@, t as int, name));
                            assert(listed(before, name));
                        } else {
                            assert(name == found);
                            if known {
                                assert(listed(before, name));
                            } else {
                                assert(after[before.len() as int]@ == name);
                            }
                        }
                        assert(listed(after, name));
                    }
                }
            }
            t = t + 1;
        }
        services
    }
}

} // verus!
