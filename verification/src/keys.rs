use vstd::prelude::*;

use crate::error::ValidationError;

verus! {

/// One key record of the provider's document: its string fields, in the
/// order the parse yields them. A record intended for use carries at least
/// the fields `kid`, `n` and `e`.
#[derive(Debug)]
pub struct KeyRecord {
    pub entries: Vec<(String, String)>,
}

impl View for KeyRecord {
    type V = Seq<(Seq<char>, Seq<char>)>;

    open spec fn view(&self) -> Seq<(Seq<char>, Seq<char>)> {
        self.entries.deep_view()
    }
}

impl DeepView for KeyRecord {
    type V = Seq<(Seq<char>, Seq<char>)>;

    open spec fn deep_view(&self) -> Seq<(Seq<char>, Seq<char>)> {
        self.view()
    }
}

/// The provider's current signing keys: an ordered sequence of key records,
/// fetched fresh for a single validation and discarded afterwards.
#[derive(Debug)]
pub struct KeySet {
    pub keys: Vec<KeyRecord>,
}

impl View for KeySet {
    type V = Seq<Seq<(Seq<char>, Seq<char>)>>;

    open spec fn view(&self) -> Seq<Seq<(Seq<char>, Seq<char>)>> {
        self.keys.deep_view()
    }
}

/// The value of the first member with the given name, if any.
pub open spec fn spec_member<T>(members: Seq<(Seq<char>, T)>, name: Seq<char>) -> Option<T>
    decreases members.len(),
{
    if members.len() == 0 {
        None
    } else if members[0].0 == name {
        Some(members[0].1)
    } else {
        spec_member(members.drop_first(), name)
    }
}

/// When no member among the first `i` carries the name, the search may
/// start at `i` instead.
proof fn lemma_spec_member_skip<T>(members: Seq<(Seq<char>, T)>, name: Seq<char>, i: int)
    requires
        0 <= i <= members.len(),
        forall|j: int| 0 <= j < i ==> members[j].0 != name,
    ensures
        spec_member(members, name) == spec_member(members.skip(i), name),
    decreases i,
{
    if i > 0 {
        assert(forall|j: int|
            0 <= j < i - 1 ==> members.drop_first()[j].0 == members[j + 1].0);
        lemma_spec_member_skip(members.drop_first(), name, i - 1);
        assert(members.drop_first().skip(i - 1) =~= members.skip(i));
    } else {
        assert(members.skip(0) =~= members);
    }
}

impl KeyRecord {
    /// The value of the record's first field with the given name, if any.
    pub fn field<'a>(&'a self, name: &String) -> (r: Option<&'a String>)
        ensures
            match r {
                Some(value) => spec_member(self@, name@) == Some(value@),
                None => spec_member(self@, name@) is None,
            },
    {
        let n = self.entries.len();
        let mut i: usize = 0;
        while i < n
            invariant
                n == self.entries.len(),
                i <= n,
                forall|j: int| 0 <= j < i ==> self@[j].0 != name@,
            decreases n - i,
        {
            if self.entries[i].0 == *name {
                proof {
                    lemma_spec_member_skip(self@, name@, i as int);
                    assert(self@.skip(i as int)[0] == self@[i as int]);
                }
                return Some(&self.entries[i].1);
            }
            i += 1;
        }
        proof {
            lemma_spec_member_skip(self@, name@, n as int);
        }
        None
    }
}

/// The first record whose `kid` field equals the wanted key identifier:
/// scan in document order, first occurrence wins.
pub open spec fn spec_find_key(
    keys: Seq<Seq<(Seq<char>, Seq<char>)>>,
    kid: Seq<char>,
) -> Option<Seq<(Seq<char>, Seq<char>)>>
    decreases keys.len(),
{
    if keys.len() == 0 {
        None
    } else if spec_member(keys[0], "kid"@) == Some(kid) {
        Some(keys[0])
    } else {
        spec_find_key(keys.drop_first(), kid)
    }
}

/// When no record among the first `i` matches, the scan may start at `i`.
proof fn lemma_spec_find_key_skip(keys: Seq<Seq<(Seq<char>, Seq<char>)>>, kid: Seq<char>, i: int)
    requires
        0 <= i <= keys.len(),
        forall|j: int| 0 <= j < i ==> spec_member(keys[j], "kid"@) != Some(kid),
    ensures
        spec_find_key(keys, kid) == spec_find_key(keys.skip(i), kid),
    decreases i,
{
    if i > 0 {
        assert(forall|j: int| 0 <= j < i - 1 ==> keys.drop_first()[j] == keys[j + 1]);
        lemma_spec_find_key_skip(keys.drop_first(), kid, i - 1);
        assert(keys.drop_first().skip(i - 1) =~= keys.skip(i));
    } else {
        assert(keys.skip(0) =~= keys);
    }
}

impl KeySet {
    /// The first record carrying the wanted key identifier, in document
    /// order; records without a `kid` field are passed over.
    pub fn find_record<'a>(&'a self, kid: &String) -> (r: Option<&'a KeyRecord>)
        ensures
            match r {
                Some(record) => spec_find_key(self@, kid@) == Some(record@),
                None => spec_find_key(self@, kid@) is None,
            },
    {
        let kid_name: String = "kid".to_owned();
        let n = self.keys.len();
        let mut i: usize = 0;
        while i < n
            invariant
                n == self.keys.len(),
                i <= n,
                kid_name@ == "kid"@,
                forall|j: int| 0 <= j < i ==> spec_member(self@[j], "kid"@) != Some(kid@),
            decreases n - i,
        {
            let record = &self.keys[i];
            let matched = match record.field(&kid_name) {
                Some(value) => *value == *kid,
                None => false,
            };
            if matched {
                proof {
                    lemma_spec_find_key_skip(self@, kid@, i as int);
                    assert(self@.skip(i as int)[0] == self@[i as int]);
                }
                return Some(record);
            }
            i += 1;
        }
        proof {
            lemma_spec_find_key_skip(self@, kid@, n as int);
        }
        None
    }
}

/// What the fetched key-set document denotes, if it parses as the expected
/// shape: the members of a JSON object whose values are arrays of
/// string-to-string objects, each member's records carrying their fields as
/// plain string pairs. `None` when the body does not parse as that shape.
pub uninterp spec fn parsed_key_doc(body: Seq<char>) -> Option<
    Seq<(Seq<char>, Seq<Seq<(Seq<char>, Seq<char>)>>)>,
>;

/// Relies on serde_json::from_str: parses the body as a JSON object whose
/// members are arrays of string-to-string objects, and hands the members
/// back as plain vectors. The result is a function of the body text alone.
#[verifier::external_body]
fn parse_key_doc(body: &str) -> (r: Option<Vec<(String, Vec<KeyRecord>)>>)
    ensures
        r.deep_view() == parsed_key_doc(body@),
{
    let doc: std::collections::BTreeMap<String, Vec<std::collections::BTreeMap<String, String>>> =
        match serde_json::from_str(body) {
            Ok(doc) => doc,
            Err(_) => return None,
        };
    Some(doc.into_iter().map(|(name, records)| {
        (name, records.into_iter().map(|fields| KeyRecord {
            entries: fields.into_iter().collect(),
        }).collect())
    }).collect())
}

/// The key records that a body denotes: the value of the `keys` member of
/// the parsed document, if the body parses and such a member exists.
pub open spec fn spec_key_set(body: Seq<char>) -> Option<Seq<Seq<(Seq<char>, Seq<char>)>>> {
    match parsed_key_doc(body) {
        Some(doc) => spec_member(doc, "keys"@),
        None => None,
    }
}

/// Parse a fetched key-set document body of the form
/// `{"keys": [ { ... }, ... ]}` into the key set it carries.
pub fn parse_key_set(body: &str) -> (r: Result<KeySet, ValidationError>)
    ensures
        match spec_key_set(body@) {
            Some(records) => r matches Ok(set) && set@ == records,
            None => r matches Err(e) && e is KeySetFormatFailure,
        },
{
    let mut doc = match parse_key_doc(body) {
        Some(doc) => doc,
        None => {
            return Err(
                ValidationError::KeySetFormatFailure {
                    detail: "the body did not parse as an object of key-record arrays".to_owned(),
                },
            );
        },
    };
    let keys_name: String = "keys".to_owned();
    let n = doc.len();
    let mut i: usize = 0;
    while i < n
        invariant
            n == doc.len(),
            i <= n,
            keys_name@ == "keys"@,
            parsed_key_doc(body@) == Some(doc.deep_view()),
            forall|j: int| 0 <= j < i ==> doc.deep_view()[j].0 != "keys"@,
        decreases n - i,
    {
        if doc[i].0 == keys_name {
            proof {
                lemma_spec_member_skip(doc.deep_view(), "keys"@, i as int);
                assert(doc.deep_view().skip(i as int)[0] == doc.deep_view()[i as int]);
            }
            let ghost docv = doc.deep_view();
            let member = doc.remove(i);
            let set = KeySet { keys: member.1 };
            proof {
                assert(set@ =~= docv[i as int].1);
            }
            return Ok(set);
        }
        i += 1;
    }
    proof {
        lemma_spec_member_skip(doc.deep_view(), "keys"@, n as int);
    }
    Err(
        ValidationError::KeySetFormatFailure {
            detail: "the key-set document has no keys member".to_owned(),
        },
    )
}

/// Interpret the provider's answer to the key-set fetch: a non-success
/// status is a transport failure; a success status hands the body to the
/// key-set parse.
pub fn key_set_from_response(status: u16, body: &str) -> (r: Result<KeySet, ValidationError>)
    ensures
        !(200 <= status < 300) ==> (r matches Err(e) && e is TransportFailure),
        200 <= status < 300 ==> match spec_key_set(body@) {
            Some(records) => r matches Ok(set) && set@ == records,
            None => r matches Err(e) && e is KeySetFormatFailure,
        },
{
    if status < 200 || status >= 300 {
        Err(
            ValidationError::TransportFailure {
                detail: "the key-set endpoint answered with a non-success HTTP status".to_owned(),
            },
        )
    } else {
        parse_key_set(body)
    }
}

} // verus!
