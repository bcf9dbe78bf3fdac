//! The JSON objects that the bridge publishes.
//!
//! They are flat but for two shapes that Home Assistant asks for: the device that
//! an entity belongs to, and the list of topics that tell its availability.
use crate::text;
use vstd::prelude::*;
use vstd::string::*;

verus! {

/// The device that an entity belongs to.
#[derive(Debug, PartialEq, Eq)]
pub struct DeviceInfo {
    pub identifiers: Vec<String>,
    pub name: String,
    pub model: String,
    pub manufacturer: String,
    pub sw_version: Option<String>,
    pub via_device: String,
}

/// The model of a device.
pub struct DeviceView {
    pub identifiers: Seq<Seq<char>>,
    pub name: Seq<char>,
    pub model: Seq<char>,
    pub manufacturer: Seq<char>,
    pub sw_version: Option<Seq<char>>,
    pub via_device: Seq<char>,
}

impl View for DeviceInfo {
    type V = DeviceView;

    open spec fn view(&self) -> DeviceView {
        DeviceView {
            identifiers: text::views(self.identifiers@),
            name: self.name@,
            model: self.model@,
            manufacturer: self.manufacturer@,
            sw_version: text::option_view(self.sw_version),
            via_device: self.via_device@,
        }
    }
}

/// A value in a published object.
#[derive(Debug, PartialEq, Eq)]
pub enum JsonValue {
    Null,
    Bool(bool),
    Int(i64),
    /// A number with a fractional part, as numerator and denominator.
    Ratio(u64, u32),
    Text(String),
    Device(DeviceInfo),
    /// A list of objects, each with one topic.
    Topics(Vec<String>),
}

/// The model of a value.
pub enum JsonView {
    Null,
    Bool(bool),
    Int(i64),
    Ratio(u64, u32),
    Text(Seq<char>),
    Device(DeviceView),
    Topics(Seq<Seq<char>>),
}

impl View for JsonValue {
    type V = JsonView;

    open spec fn view(&self) -> JsonView {
        match self {
            JsonValue::Null => JsonView::Null,
            JsonValue::Bool(b) => JsonView::Bool(*b),
            JsonValue::Int(i) => JsonView::Int(*i),
            JsonValue::Ratio(n, d) => JsonView::Ratio(*n, *d),
            JsonValue::Text(s) => JsonView::Text(s@),
            JsonValue::Device(d) => JsonView::Device(d@),
            JsonValue::Topics(t) => JsonView::Topics(text::views(t@)),
        }
    }
}

impl JsonValue {
    /// A text value.
    pub fn text(s: &str) -> (r: Self)
        ensures
            r@ == JsonView::Text(s@),
    {
        JsonValue::Text(s.to_owned())
    }

    /// The text, if the value is one.
    pub fn as_str(&self) -> (r: Option<&str>)
        ensures
            match self@ {
                JsonView::Text(s) => r matches Some(t) && t@ == s,
                _ => r is None,
            },
    {
        match self {
            JsonValue::Text(s) => Some(s.as_str()),
            _ => None,
        }
    }
}

/// An object: values under names.
#[derive(Debug, PartialEq, Eq)]
pub struct JsonObject {
    fields: Vec<(String, JsonValue)>,
}

/// The values under names that a run of assignments leaves.
pub open spec fn assigned(f: Seq<(String, JsonValue)>) -> Map<Seq<char>, JsonView>
    decreases f.len(),
{
    if f.len() == 0 {
        Map::empty()
    } else {
        assigned(f.drop_last()).insert(f.last().0@, f.last().1@)
    }
}

impl View for JsonObject {
    type V = Map<Seq<char>, JsonView>;

    closed spec fn view(&self) -> Map<Seq<char>, JsonView> {
        assigned(self.fields@)
    }
}

impl JsonObject {
    /// An object without fields.
    pub fn new() -> (r: Self)
        ensures
            r@ == Map::<Seq<char>, JsonView>::empty(),
    {
        JsonObject { fields: Vec::new() }
    }

    /// Puts a value under a name.
    pub fn set(&mut self, name: &str, value: JsonValue)
        ensures
            final(self)@ == old(self)@.insert(name@, value@),
    {
        let ghost f = self.fields@;
        self.fields.push((name.to_owned(), value));
        proof {
            assert(self.fields@.drop_last() =~= f);
        }
    }

    /// Puts a text under a name.
    pub fn set_text(&mut self, name: &str, value: &str)
        ensures
            final(self)@ == old(self)@.insert(name@, JsonView::Text(value@)),
    {
        self.set(name, JsonValue::text(value));
    }

    /// The value under a name.
    pub fn get(&self, name: &str) -> (r: Option<&JsonValue>)
        ensures
            match r {
                Some(v) => self@.contains_key(name@) && v@ == self@[name@],
                None => !self@.contains_key(name@),
            },
    {
        let mut i: usize = self.fields.len();
        proof {
            assert(self.fields@.subrange(0, i as int) =~= self.fields@);
        }
        while i > 0
            invariant
                i <= self.fields@.len(),
                assigned(self.fields@.subrange(0, i as int)).contains_key(name@)
                    == self@.contains_key(name@),
                self@.contains_key(name@) ==> assigned(self.fields@.subrange(0, i as int))[name@]
                    == self@[name@],
            decreases i,
        {
            proof {
                let w = self.fields@.subrange(0, i as int);
                assert(w.drop_last() =~= self.fields@.subrange(0, i - 1));
                assert(w.last() == self.fields@[i - 1]);
            }
            i -= 1;
            if text::same(self.fields[i].0.as_str(), name) {
                return Some(&self.fields[i].1);
            }
        }
        proof {
            assert(self.fields@.subrange(0, 0) =~= Seq::empty());
        }
        None
    }

    /// The assignments that made the object, in their order.
    pub fn fields(&self) -> (r: &[(String, JsonValue)])
        ensures
            self@ == assigned(r@),
    {
        self.fields.as_slice()
    }
}

/// What stands in a value is what its model shows; a device shows each of its fields.
pub proof fn law_model_of_a_value(v: JsonValue, d: DeviceInfo)
    ensures
        v is Null <==> v@ is Null,
        v matches JsonValue::Bool(b) ==> v@ == JsonView::Bool(b),
        v matches JsonValue::Int(i) ==> v@ == JsonView::Int(i),
        v matches JsonValue::Ratio(n, m) ==> v@ == JsonView::Ratio(n, m),
        v matches JsonValue::Text(s) ==> v@ == JsonView::Text(s@),
        d@.name == d.name@,
        d@.model == d.model@,
        d@.manufacturer == d.manufacturer@,
        d@.sw_version == text::option_view(d.sw_version),
        d@.via_device == d.via_device@,
        d@.identifiers.len() == d.identifiers@.len(),
        forall|i: int| 0 <= i < d.identifiers@.len() ==> #[trigger] d@.identifiers[i]
            == d.identifiers@[i]@,
{
}

/// Of several values under one name the last counts, and other names keep theirs.
pub proof fn law_last_assignment_counts(
    f: Seq<(String, JsonValue)>,
    x: (String, JsonValue),
    other: Seq<char>,
)
    ensures
        assigned(f.push(x)).contains_key(x.0@),
        assigned(f.push(x))[x.0@] == x.1@,
        other != x.0@ ==> assigned(f.push(x)).contains_key(other) == assigned(f).contains_key(other)
            && (assigned(f).contains_key(other) ==> assigned(f.push(x))[other] == assigned(f)[other]),
{
    assert(f.push(x).drop_last() =~= f);
}

} // verus!
