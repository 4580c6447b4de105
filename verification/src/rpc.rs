use serde_json::Value;
use vstd::prelude::*;

verus! {

/// A value of RPC error data: a plain value, or a JSON payload passed on as it came.
#[derive(Debug)]
pub enum RpcValue {
    Null,
    Bool(bool),
    Unsigned(u128),
    Signed(i128),
    Text(String),
    Payload(Value),
}

/// `RpcValue` as a mathematical value.
pub enum RpcValueView {
    Null,
    Bool(bool),
    Unsigned(int),
    Signed(int),
    Text(Seq<char>),
    Payload(Value),
}

impl View for RpcValue {
    type V = RpcValueView;

    open spec fn view(&self) -> RpcValueView {
        match self {
            RpcValue::Null => RpcValueView::Null,
            RpcValue::Bool(value) => RpcValueView::Bool(*value),
            RpcValue::Unsigned(value) => RpcValueView::Unsigned(*value as int),
            RpcValue::Signed(value) => RpcValueView::Signed(*value as int),
            RpcValue::Text(value) => RpcValueView::Text(value@),
            RpcValue::Payload(value) => RpcValueView::Payload(*value),
        }
    }
}

/// One member of an RPC error data object.
#[derive(Debug)]
pub struct RpcField {
    pub key: String,
    pub value: RpcValue,
}

/// What kind of failure an error is, and what to do about it.
#[derive(Debug, Clone, Copy, PartialEq, Eq)]
pub struct ErrorClassification {
    pub category: &'static str,
    pub hint: &'static str,
}

/// The data of an RPC error: a JSON object whose members keep their order, and, when the
/// error is classified, the `schemaVersion` and `classification` members that go with it.
#[derive(Debug)]
pub struct RpcData {
    pub fields: Vec<RpcField>,
    pub classification: Option<ErrorClassification>,
}

pub open spec fn text(value: Seq<char>) -> RpcValueView {
    RpcValueView::Text(value)
}

pub open spec fn unsigned(value: int) -> RpcValueView {
    RpcValueView::Unsigned(value)
}

impl ErrorClassification {
    pub fn new(category: &'static str, hint: &'static str) -> (classification: Self)
        ensures
            classification.category == category,
            classification.hint == hint,
    {
        ErrorClassification { category, hint }
    }
}

impl RpcData {
    /// The members, in order, as (key, value) pairs.
    pub open spec fn entries(&self) -> Seq<(Seq<char>, RpcValueView)> {
        self.fields@.map_values(|field: RpcField| (field.key@, field.value@))
    }

    /// An object with only a `kind` member.
    pub fn of_kind(kind: &str) -> (data: Self)
        ensures
            data.entries() == seq![("kind"@, text(kind@))],
            data.classification is None,
    {
        let mut fields: Vec<RpcField> = Vec::new();
        fields.push(RpcField { key: String::from_str("kind"), value: RpcValue::Text(String::from_str(kind)) });
        let data = RpcData { fields, classification: None };
        assert(data.entries() =~= seq![("kind"@, text(kind@))]);
        data
    }

    fn with(self, key: &str, value: RpcValue) -> (data: Self)
        ensures
            data.entries() == self.entries().push((key@, value@)),
            data.classification == self.classification,
    {
        let mut fields = self.fields;
        fields.push(RpcField { key: String::from_str(key), value });
        let data = RpcData { fields, classification: self.classification };
        assert(data.entries() =~= self.entries().push((key@, value@)));
        data
    }

    pub fn with_text(self, key: &str, value: &str) -> (data: Self)
        ensures
            data.entries() == self.entries().push((key@, text(value@))),
            data.classification == self.classification,
    {
        self.with(key, RpcValue::Text(String::from_str(value)))
    }

    pub fn with_unsigned(self, key: &str, value: u128) -> (data: Self)
        ensures
            data.entries() == self.entries().push((key@, unsigned(value as int))),
            data.classification == self.classification,
    {
        self.with(key, RpcValue::Unsigned(value))
    }

    pub fn with_signed(self, key: &str, value: i128) -> (data: Self)
        ensures
            data.entries() == self.entries().push((key@, RpcValueView::Signed(value as int))),
            data.classification == self.classification,
    {
        self.with(key, RpcValue::Signed(value))
    }

    pub fn with_bool(self, key: &str, value: bool) -> (data: Self)
        ensures
            data.entries() == self.entries().push((key@, RpcValueView::Bool(value))),
            data.classification == self.classification,
    {
        self.with(key, RpcValue::Bool(value))
    }

    /// Adds `null`, or the payload when there is one.
    pub fn with_optional_payload(self, key: &str, value: Option<Value>) -> (data: Self)
        ensures
            data.entries() == self.entries().push(
                (
                    key@,
                    match value {
                        Some(payload) => RpcValueView::Payload(payload),
                        None => RpcValueView::Null,
                    },
                ),
            ),
            data.classification == self.classification,
    {
        match value {
            Some(payload) => self.with(key, RpcValue::Payload(payload)),
            None => self.with(key, RpcValue::Null),
        }
    }

    /// Adds a text when there is one, `null` otherwise.
    pub fn with_optional_text(self, key: &str, value: &Option<String>) -> (data: Self)
        ensures
            data.entries() == self.entries().push(
                (
                    key@,
                    match *value {
                        Some(value) => text(value@),
                        None => RpcValueView::Null,
                    },
                ),
            ),
            data.classification == self.classification,
    {
        match value {
            Some(value) => self.with(key, RpcValue::Text(value.clone())),
            None => self.with(key, RpcValue::Null),
        }
    }

    /// An object with no members.
    pub fn empty() -> (data: Self)
        ensures
            data.entries() == Seq::<(Seq<char>, RpcValueView)>::empty(),
            data.classification is None,
    {
        let data = RpcData { fields: Vec::new(), classification: None };
        assert(data.entries() =~= Seq::<(Seq<char>, RpcValueView)>::empty());
        data
    }

    /// Adds a number when there is one, `null` otherwise.
    pub fn with_optional_unsigned(self, key: &str, value: Option<u128>) -> (data: Self)
        ensures
            data.entries() == self.entries().push(
                (
                    key@,
                    match value {
                        Some(number) => unsigned(number as int),
                        None => RpcValueView::Null,
                    },
                ),
            ),
            data.classification == self.classification,
    {
        match value {
            Some(number) => self.with(key, RpcValue::Unsigned(number)),
            None => self.with(key, RpcValue::Null),
        }
    }

    /// Marks the data with a classification; its members stay as they are.
    pub fn classified(self, classification: ErrorClassification) -> (data: Self)
        ensures
            data.entries() == self.entries(),
            data.classification == Some(classification),
    {
        RpcData { fields: self.fields, classification: Some(classification) }
    }

    pub fn with_payload(self, key: &str, value: Value) -> (data: Self)
        ensures
            data.entries() == self.entries().push((key@, RpcValueView::Payload(value))),
            data.classification == self.classification,
    {
        self.with(key, RpcValue::Payload(value))
    }
}

impl RpcValue {
    /// A copy with the same view.
    pub fn copied(&self) -> (copy: Self)
        ensures
            copy@ == self@,
    {
        match self {
            RpcValue::Null => RpcValue::Null,
            RpcValue::Bool(value) => RpcValue::Bool(*value),
            RpcValue::Unsigned(value) => RpcValue::Unsigned(*value),
            RpcValue::Signed(value) => RpcValue::Signed(*value),
            RpcValue::Text(value) => RpcValue::Text(value.clone()),
            RpcValue::Payload(value) => RpcValue::Payload(value.clone()),
        }
    }
}

impl RpcData {
    /// A copy with the same members and classification.
    pub fn copied(&self) -> (copy: Self)
        ensures
            copy.entries() == self.entries(),
            copy.classification == self.classification,
    {
        let mut fields: Vec<RpcField> = Vec::new();
        let mut index: usize = 0;
        while index < self.fields.len()
            invariant
                index <= self.fields@.len(),
                fields@.len() == index,
                forall|i: int|
                    0 <= i < index ==> (#[trigger] fields@[i]).key@ == self.fields@[i].key@ && fields@[i].value@
                        == self.fields@[i].value@,
            decreases self.fields@.len() - index,
        {
            let field = &self.fields[index];
            fields.push(RpcField { key: field.key.clone(), value: field.value.copied() });
            index = index + 1;
        }
        let copy = RpcData { fields, classification: self.classification };
        assert(copy.entries() =~= self.entries());
        copy
    }
}

} // verus!
