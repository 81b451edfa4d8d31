use vstd::prelude::*;

verus! {

/// What a profile field carries in a request body.
pub enum FieldModel {
    Text(Seq<char>),
    Number(u64),
}

/// The value of one field of the status body.
#[derive(Debug, Clone, PartialEq, Eq)]
pub enum FieldValue {
    Text(String),
    Number(u64),
}

impl View for FieldValue {
    type V = FieldModel;

    open spec fn view(&self) -> FieldModel {
        match self {
            FieldValue::Text(s) => FieldModel::Text(s@),
            FieldValue::Number(n) => FieldModel::Number(*n),
        }
    }
}

/// One named field of the status body.
#[derive(Debug, Clone, PartialEq, Eq)]
pub struct BodyField {
    pub name: String,
    pub value: FieldValue,
}

impl View for BodyField {
    type V = (Seq<char>, FieldModel);

    open spec fn view(&self) -> (Seq<char>, FieldModel) {
        (self.name@, self.value@)
    }
}

pub open spec fn fields_view(fields: Seq<BodyField>) -> Seq<(Seq<char>, FieldModel)> {
    fields.map_values(|f: BodyField| f@)
}

/// The profile status: text, emoji and expiration, each optional.
#[derive(Debug, Clone, PartialEq, Eq)]
pub struct Profile {
    pub text: Option<String>,
    pub emoji: Option<String>,
    pub expiration: Option<u64>,
}

pub open spec fn text_key() -> Seq<char> {
    "status_text"@
}

pub open spec fn emoji_key() -> Seq<char> {
    "status_emoji"@
}

pub open spec fn expiration_key() -> Seq<char> {
    "status_expiration"@
}

/// A single entry when the value is present, nothing otherwise.
pub open spec fn entry_if_set(name: Seq<char>, value: Option<FieldModel>) -> Seq<(Seq<char>, FieldModel)> {
    match value {
        Some(v) => seq![(name, v)],
        None => Seq::empty(),
    }
}

pub open spec fn text_model(s: Option<String>) -> Option<FieldModel> {
    match s {
        Some(t) => Some(FieldModel::Text(t@)),
        None => None,
    }
}

pub open spec fn number_model(n: Option<u64>) -> Option<FieldModel> {
    match n {
        Some(v) => Some(FieldModel::Number(v)),
        None => None,
    }
}

/// The fields of the body that updates the status: the set ones, in a fixed order.
pub open spec fn status_fields(p: Profile) -> Seq<(Seq<char>, FieldModel)> {
    entry_if_set(text_key(), text_model(p.text))
        + entry_if_set(emoji_key(), text_model(p.emoji))
        + entry_if_set(expiration_key(), number_model(p.expiration))
}

/// The value that the body gives to a key, if the key occurs in it.
pub open spec fn field_of(fields: Seq<(Seq<char>, FieldModel)>, key: Seq<char>) -> Option<FieldModel> {
    if exists|i: int| 0 <= i < fields.len() && fields[i].0 == key {
        Some(fields[choose|i: int| 0 <= i < fields.len() && fields[i].0 == key].1)
    } else {
        None
    }
}

fn push_text(fields: &mut Vec<BodyField>, name: &str, value: &Option<String>)
    ensures
        fields_view(final(fields)@) == fields_view(old(fields)@) + entry_if_set(name@, text_model(*value)),
{
    if let Some(t) = value {
        fields.push(BodyField { name: name.to_owned(), value: FieldValue::Text(t.clone()) });
    }
    assert(fields_view(fields@) =~= fields_view(old(fields)@) + entry_if_set(name@, text_model(*value)));
}

impl Profile {
    pub fn _new(text: Option<String>, emoji: Option<String>, expiration: Option<u64>) -> (r: Profile)
        ensures
            r == (Profile { text, emoji, expiration }),
    {
        Profile { text, emoji, expiration }
    }

    /// The fields of the status body, holding only those that are set.
    pub fn body_fields(&self) -> (r: Vec<BodyField>)
        ensures
            fields_view(r@) == status_fields(*self),
    {
        let mut fields: Vec<BodyField> = Vec::new();
        assert(fields_view(fields@) =~= Seq::empty());
        push_text(&mut fields, "status_text", &self.text);
        push_text(&mut fields, "status_emoji", &self.emoji);
        let ghost before = fields@;
        if let Some(n) = self.expiration {
            fields.push(BodyField { name: "status_expiration".to_owned(), value: FieldValue::Number(n) });
        }
        assert(fields_view(fields@) =~= fields_view(before) + entry_if_set(expiration_key(), number_model(self.expiration)));
        assert(fields_view(fields@) =~= status_fields(*self));
        fields
    }
}

/// The status body names exactly the fields that are set, each once and with its
/// own value; an unset field does not occur in it at all.
pub proof fn lemma_body_holds_exactly_set_fields(p: Profile)
    ensures
        field_of(status_fields(p), text_key()) == text_model(p.text),
        field_of(status_fields(p), emoji_key()) == text_model(p.emoji),
        field_of(status_fields(p), expiration_key()) == number_model(p.expiration),
        forall|i: int|
            0 <= i < status_fields(p).len() ==> {
                let k = #[trigger] status_fields(p)[i].0;
                k == text_key() || k == emoji_key() || k == expiration_key()
            },
        forall|i: int, j: int|
            0 <= i < j < status_fields(p).len() ==> status_fields(p)[i].0 != status_fields(p)[j].0,
{
    reveal_strlit("status_text");
    reveal_strlit("status_emoji");
    reveal_strlit("status_expiration");
    assert(text_key() != emoji_key() && text_key() != expiration_key() && emoji_key() != expiration_key()) by {
        assert(text_key()[7] != emoji_key()[7]);
        assert(text_key()[7] != expiration_key()[7]);
        assert(emoji_key()[8] != expiration_key()[8]);
    }
    let f = status_fields(p);
    let a = entry_if_set(text_key(), text_model(p.text));
    let b = entry_if_set(emoji_key(), text_model(p.emoji));
    let c = entry_if_set(expiration_key(), number_model(p.expiration));
    assert(f == a + b + c);
    assert forall|i: int| 0 <= i < f.len() implies
        (f[i] == (text_key(), text_model(p.text)->0) && p.text is Some && i == 0)
        || (f[i] == (emoji_key(), text_model(p.emoji)->0) && p.emoji is Some && i == a.len())
        || (f[i] == (expiration_key(), number_model(p.expiration)->0) && p.expiration is Some
            && i == a.len() + b.len()) by {
        if i < a.len() {
        } else if i < a.len() + b.len() {
            assert(f[i] == b[i - a.len()]);
        } else {
            assert(f[i] == c[i - a.len() - b.len()]);
        }
    }
    if p.text is Some {
        assert(f[0].0 == text_key());
    }
    if p.emoji is Some {
        assert(f[a.len() as int].0 == emoji_key());
    }
    if p.expiration is Some {
        assert(f[(a.len() + b.len()) as int].0 == expiration_key());
    }
}

} // verus!
