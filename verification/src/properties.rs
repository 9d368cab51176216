//! The named values that an event carries, kept in the order of their
//! names so that an event is always written out the same way.

use vstd::prelude::*;
use vstd::string::*;
use vstd::utf8::*;
use crate::text::{json_string, push_json_string, push_signed_decimal, signed_decimal};

verus! {

/// What a property holds.
#[derive(Debug)]
pub enum Value {
    /// A text.
    Str(String),
    /// A whole number.
    Number(i64),
    /// A truth value.
    Bool(bool),
    /// Named values of its own.
    Object(Properties),
}

/// What a property holds, as a mathematical value.
pub enum ValueView {
    /// A text.
    Str(Seq<char>),
    /// A whole number.
    Number(int),
    /// A truth value.
    Bool(bool),
    /// Named values of its own.
    Object(Seq<PropertyView>),
}

/// A property as a mathematical value: its name and what it holds.
pub struct PropertyView {
    pub name: Seq<char>,
    pub value: ValueView,
}

impl View for Value {
    type V = ValueView;

    open spec fn view(&self) -> ValueView
        decreases self,
    {
        match self {
            Value::Str(s) => ValueView::Str(s@),
            Value::Number(n) => ValueView::Number(*n as int),
            Value::Bool(b) => ValueView::Bool(*b),
            Value::Object(properties) => ValueView::Object(properties@),
        }
    }
}

/// A value as JSON: a text as a string, a number in decimal, a truth value
/// as `true` or `false`, named values as an object.
pub open spec fn value_json(value: ValueView) -> Seq<char>
    decreases value,
{
    match value {
        ValueView::Str(s) => json_string(s),
        ValueView::Number(n) => signed_decimal(n),
        ValueView::Bool(b) => if b {
            "true"@
        } else {
            "false"@
        },
        ValueView::Object(entries) => seq!['{'] + members_json(entries) + seq!['}'],
    }
}

/// Properties as the members of a JSON object, with a comma between one
/// and the next.
pub open spec fn members_json(entries: Seq<PropertyView>) -> Seq<char>
    decreases entries,
{
    if entries.len() == 0 {
        Seq::empty()
    } else {
        members_json(entries.drop_last()) + (if entries.len() > 1 {
            seq![',']
        } else {
            Seq::empty()
        }) + json_string(entries.last().name) + seq![':'] + value_json(entries.last().value)
    }
}

impl Value {
    /// Appends the value as JSON.
    pub fn push_json(&self, out: &mut String)
        ensures
            final(out)@ == old(out)@ + value_json(self@),
        decreases self,
    {
        match self {
            Value::Str(s) => push_json_string(out, s.as_str()),
            Value::Number(n) => push_signed_decimal(out, *n),
            Value::Bool(b) => {
                if *b {
                    out.append("true");
                } else {
                    out.append("false");
                }
            },
            Value::Object(properties) => {
                out.push('{');
                properties.push_members(out);
                out.push('}');
            },
        }
    }
}

/// `a` and `b` agree on their first `k` bytes, and there `a` ends or has
/// the smaller byte.
pub open spec fn parts_before(a: Seq<u8>, b: Seq<u8>, k: int) -> bool {
    &&& 0 <= k <= a.len()
    &&& k < b.len()
    &&& forall|j: int| 0 <= j < k ==> a[j] == b[j]
    &&& (k == a.len() || a[k] < b[k])
}

/// `a` comes before `b` in the order of a dictionary, byte by byte.
pub open spec fn bytes_before(a: Seq<u8>, b: Seq<u8>) -> bool {
    exists|k: int| parts_before(a, b, k)
}

/// The name `a` comes before the name `b`: their UTF-8 bytes do.
pub open spec fn name_before(a: Seq<char>, b: Seq<char>) -> bool {
    bytes_before(encode_utf8(a), encode_utf8(b))
}

/// The names stand in strictly rising order, so none occurs twice.
pub open spec fn names_rising(entries: Seq<PropertyView>) -> bool {
    forall|i: int, j: int|
        0 <= i < j < entries.len() ==> name_before(
            (#[trigger] entries[i]).name,
            (#[trigger] entries[j]).name,
        )
}

/// Some entry has the name.
pub open spec fn has_name(entries: Seq<PropertyView>, name: Seq<char>) -> bool {
    exists|i: int| 0 <= i < entries.len() && (#[trigger] entries[i]).name == name
}

/// `after` is `before` with the value set under the name at place `p`:
/// in place of the entry of that name, or as a new entry.
pub open spec fn set_at(
    before: Seq<PropertyView>,
    name: Seq<char>,
    value: ValueView,
    after: Seq<PropertyView>,
    p: int,
) -> bool {
    let entry = PropertyView { name, value };
    &&& 0 <= p <= before.len()
    &&& if has_name(before, name) {
        p < before.len() && before[p].name == name && after == before.update(p, entry)
    } else {
        after == before.insert(p, entry)
    }
}

/// `after` is `before` with the value set under the name.
pub open spec fn is_set(
    before: Seq<PropertyView>,
    name: Seq<char>,
    value: ValueView,
    after: Seq<PropertyView>,
) -> bool {
    exists|p: int| set_at(before, name, value, after, p)
}

/// No text comes before itself, and of two texts at most one comes before
/// the other.
pub proof fn lemma_before_is_strict(a: Seq<u8>, b: Seq<u8>)
    requires
        bytes_before(a, b),
    ensures
        a != b,
        !bytes_before(b, a),
{
    let k = choose|k: int| parts_before(a, b, k);
    if a == b {
        assert(false);
    }
    if bytes_before(b, a) {
        let m = choose|m: int| parts_before(b, a, m);
        if k < m {
            assert(a[k] == b[k]);
        } else if m < k {
            assert(a[m] == b[m]);
        }
        assert(false);
    }
}

/// What comes before a text that comes before a third comes before the
/// third.
pub proof fn lemma_before_is_transitive(a: Seq<u8>, b: Seq<u8>, c: Seq<u8>)
    requires
        bytes_before(a, b),
        bytes_before(b, c),
    ensures
        bytes_before(a, c),
{
    let k = choose|k: int| parts_before(a, b, k);
    let m = choose|m: int| parts_before(b, c, m);
    if k <= m {
        assert forall|j: int| 0 <= j < k implies a[j] == c[j] by {
            assert(a[j] == b[j]);
            assert(b[j] == c[j]);
        }
        assert(parts_before(a, c, k));
    } else {
        assert forall|j: int| 0 <= j < m implies a[j] == c[j] by {
            assert(a[j] == b[j]);
            assert(b[j] == c[j]);
        }
        assert(a[m] == b[m]);
        assert(parts_before(a, c, m));
    }
}

/// Names in rising order differ from one another.
pub proof fn rising_names_differ(entries: Seq<PropertyView>, i: int, j: int)
    requires
        names_rising(entries),
        0 <= i < j < entries.len(),
    ensures
        entries[i].name != entries[j].name,
{
    lemma_before_is_strict(encode_utf8(entries[i].name), encode_utf8(entries[j].name));
}

/// Where one name stands against another.
#[derive(Clone, Copy, Debug, PartialEq, Eq)]
pub enum Place {
    /// The first name comes before the second.
    Before,
    /// The two names are one and the same.
    Same,
    /// The first name comes after the second.
    After,
}

/// Tells where the name `a` stands against the name `b`.
pub fn place_of(a: &str, b: &str) -> (place: Place)
    ensures
        place == Place::Before <==> name_before(a@, b@),
        place == Place::Same <==> a@ == b@,
        place == Place::After <==> name_before(b@, a@),
{
    let x = a.as_bytes();
    let y = b.as_bytes();
    let mut i: usize = 0;
    while i < x.len() && i < y.len()
        invariant
            i <= x.len(),
            i <= y.len(),
            x@ == encode_utf8(a@),
            y@ == encode_utf8(b@),
            forall|j: int| 0 <= j < i ==> x@[j] == y@[j],
        decreases x.len() - i,
    {
        if x[i] < y[i] {
            proof {
                assert(parts_before(x@, y@, i as int));
                lemma_before_is_strict(x@, y@);
            }
            return Place::Before;
        }
        if x[i] > y[i] {
            proof {
                assert(parts_before(y@, x@, i as int));
                lemma_before_is_strict(y@, x@);
            }
            return Place::After;
        }
        i += 1;
    }
    if i < y.len() {
        proof {
            assert(parts_before(x@, y@, i as int));
            lemma_before_is_strict(x@, y@);
        }
        Place::Before
    } else if i < x.len() {
        proof {
            assert(parts_before(y@, x@, i as int));
            lemma_before_is_strict(y@, x@);
        }
        Place::After
    } else {
        proof {
            assert(x@ =~= y@);
            encode_utf8_decode_utf8(a@);
            encode_utf8_decode_utf8(b@);
            if bytes_before(x@, y@) {
                lemma_before_is_strict(x@, y@);
            }
            if bytes_before(y@, x@) {
                lemma_before_is_strict(y@, x@);
            }
        }
        Place::Same
    }
}

#[derive(Debug)]
struct Property {
    name: String,
    value: Value,
}

/// The properties of an event: each name once, in rising order.
#[derive(Debug)]
pub struct Properties {
    entries: Vec<Property>,
}

impl View for Properties {
    type V = Seq<PropertyView>;

    closed spec fn view(&self) -> Seq<PropertyView>
        decreases self,
    {
        views_of(self.entries@)
    }
}

spec fn views_of(entries: Seq<Property>) -> Seq<PropertyView>
    decreases entries,
{
    Seq::new(
        entries.len(),
        |i: int|
            if 0 <= i < entries.len() {
                PropertyView { name: entries[i].name@, value: entries[i].value@ }
            } else {
                arbitrary()
            },
    )
}

impl Properties {
    /// The names stand in strictly rising order.
    #[verifier::type_invariant]
    pub open spec fn is_ordered(&self) -> bool {
        names_rising(self@)
    }

    /// No properties.
    pub fn new() -> (made: Properties)
        ensures
            made@ == Seq::<PropertyView>::empty(),
            made.is_ordered(),
    {
        Properties { entries: Vec::new() }
    }

    /// How many properties there are.
    pub fn len(&self) -> (n: usize)
        ensures
            n == self@.len(),
    {
        self.entries.len()
    }

    /// The name of the property at place `i`.
    pub fn name(&self, i: usize) -> (name: &str)
        requires
            i < self@.len(),
        ensures
            name@ == self@[i as int].name,
    {
        self.entries[i].name.as_str()
    }

    /// What the property at place `i` holds.
    pub fn value(&self, i: usize) -> (value: &Value)
        requires
            i < self@.len(),
        ensures
            value@ == self@[i as int].value,
    {
        &self.entries[i].value
    }

    /// Appends the properties as the members of a JSON object.
    pub fn push_members(&self, out: &mut String)
        ensures
            final(out)@ == old(out)@ + members_json(self@),
        decreases self,
    {
        let mut i: usize = 0;
        while i < self.entries.len()
            invariant
                i <= self.entries.len(),
                self.entries.len() == self@.len(),
                out@ == old(out)@ + members_json(self@.take(i as int)),
            decreases self.entries.len() - i,
        {
            proof {
                assert(self@.take(i + 1).drop_last() == self@.take(i as int));
            }
            if i > 0 {
                out.push(',');
            }
            push_json_string(out, self.entries[i].name.as_str());
            out.push(':');
            self.entries[i].value.push_json(out);
            i += 1;
        }
        proof {
            assert(self@.take(self@.len() as int) == self@);
        }
    }

    /// The place of the first property whose name does not come before
    /// `name`, and whether it has that very name.
    fn locate(&self, name: &str) -> (found: (usize, bool))
        ensures
            found.0 <= self@.len(),
            forall|k: int| 0 <= k < found.0 ==> name_before((#[trigger] self@[k]).name, name@),
            found.1 ==> found.0 < self@.len() && self@[found.0 as int].name == name@,
            !found.1 ==> forall|k: int|
                found.0 <= k < self@.len() ==> name_before(name@, (#[trigger] self@[k]).name),
    {
        proof {
            use_type_invariant(self);
        }
        let mut i: usize = 0;
        while i < self.entries.len()
            invariant
                i <= self.entries.len(),
                self.entries.len() == self@.len(),
                names_rising(self@),
                forall|k: int| 0 <= k < i ==> name_before((#[trigger] self@[k]).name, name@),
            decreases self.entries.len() - i,
        {
            match place_of(self.entries[i].name.as_str(), name) {
                Place::Before => {
                    i += 1;
                },
                Place::Same => {
                    return (i, true);
                },
                Place::After => {
                    proof {
                        assert forall|k: int| i <= k < self@.len() implies name_before(
                            name@,
                            (#[trigger] self@[k]).name,
                        ) by {
                            if i < k {
                                lemma_before_is_transitive(
                                    encode_utf8(name@),
                                    encode_utf8(self@[i as int].name),
                                    encode_utf8(self@[k].name),
                                );
                            }
                        }
                    }
                    return (i, false);
                },
            }
        }
        (i, false)
    }

    /// What the property of the given name holds, if there is one.
    pub fn get(&self, name: &str) -> (found: Option<&Value>)
        ensures
            found is Some <==> has_name(self@, name@),
            found matches Some(value) ==> exists|i: int|
                0 <= i < self@.len() && (#[trigger] self@[i]).name == name@ && self@[i].value
                    == value@,
    {
        let (p, found) = self.locate(name);
        if found {
            Some(&self.entries[p].value)
        } else {
            proof {
                if has_name(self@, name@) {
                    let k = choose|k: int| 0 <= k < self@.len() && (#[trigger] self@[k]).name == name@;
                    if k < p {
                        lemma_before_is_strict(encode_utf8(self@[k].name), encode_utf8(name@));
                    } else {
                        lemma_before_is_strict(encode_utf8(name@), encode_utf8(self@[k].name));
                    }
                }
            }
            None
        }
    }

    /// Sets the value under the name: in place of the one that was there,
    /// or as a new property where the order of the names puts it.
    pub fn insert(&mut self, name: &str, value: Value)
        ensures
            is_set(old(self)@, name@, value@, final(self)@),
            final(self).is_ordered(),
    {
        proof {
            use_type_invariant(&*self);
        }
        let (p, found) = self.locate(name);
        let ghost before = self@;
        let mut entries: Vec<Property> = Vec::new();
        core::mem::swap(&mut self.entries, &mut entries);
        let ghost entry = PropertyView { name: name@, value: value@ };
        let property = Property { name: name.to_owned(), value };
        proof {
            if has_name(before, name@) && !found {
                let k = choose|k: int| 0 <= k < before.len() && (#[trigger] before[k]).name == name@;
                if k < p {
                    lemma_before_is_strict(encode_utf8(before[k].name), encode_utf8(name@));
                } else {
                    lemma_before_is_strict(encode_utf8(name@), encode_utf8(before[k].name));
                }
            }
        }
        if found {
            proof {
                assert forall|i: int, j: int| 0 <= i < j < before.len() implies name_before(
                    (#[trigger] before.update(p as int, entry)[i]).name,
                    (#[trigger] before.update(p as int, entry)[j]).name,
                ) by {
                    assert(before.update(p as int, entry)[i].name == before[i].name);
                    assert(before.update(p as int, entry)[j].name == before[j].name);
                }
            }
            entries[p] = property;
            proof {
                assert(views_of(entries@) =~= before.update(p as int, entry));
            }
            self.entries = entries;
            proof {
                assert(set_at(before, name@, value@, self@, p as int));
            }
        } else {
            proof {
                let after = before.insert(p as int, entry);
                assert forall|i: int, j: int| 0 <= i < j < after.len() implies name_before(
                    (#[trigger] after[i]).name,
                    (#[trigger] after[j]).name,
                ) by {
                    if j < p {
                        assert(after[i] == before[i] && after[j] == before[j]);
                    } else if j == p {
                        assert(after[i] == before[i]);
                    } else if i < p {
                        assert(after[i] == before[i] && after[j] == before[j - 1]);
                    } else if i == p {
                        assert(after[j] == before[j - 1]);
                    } else {
                        assert(after[i] == before[i - 1] && after[j] == before[j - 1]);
                    }
                }
            }
            entries.insert(p, property);
            proof {
                assert(views_of(entries@) =~= before.insert(p as int, entry));
            }
            self.entries = entries;
            proof {
                assert(set_at(before, name@, value@, self@, p as int));
            }
        }
    }
}

} // verus!
