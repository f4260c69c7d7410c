//! From documents to text.
use vstd::prelude::*;
use vstd::string::StringExecFns;

use super::{Json, JsonValue, MemberValue};

verus! {

/// The string literal that `serde_json::to_string` writes for a string:
/// the string in double quotes, with what JSON cannot hold as it is escaped.
pub uninterp spec fn json_quoted(text: Seq<char>) -> Seq<char>;

/// The compact JSON text of a document: no white space, the members of an
/// object in their own order.
pub open spec fn rendering(j: JsonValue) -> Seq<char>
    decreases j,
{
    match j {
        JsonValue::Null => "null"@,
        JsonValue::Bool(b) => if b {
            "true"@
        } else {
            "false"@
        },
        JsonValue::Number(text) => text,
        JsonValue::Text(text) => json_quoted(text),
        JsonValue::Array(items) => "["@ + rendering_items(items) + "]"@,
        JsonValue::Object(members) => "{"@ + rendering_members(members) + "}"@,
    }
}

/// The texts of `items`, with a comma between each two.
pub open spec fn rendering_items(items: Seq<JsonValue>) -> Seq<char>
    decreases items,
{
    if items.len() == 0 {
        Seq::empty()
    } else if items.len() == 1 {
        rendering(items[0])
    } else {
        rendering_items(items.drop_last()) + ","@ + rendering(items.last())
    }
}

/// The text of a member: its name as a string literal, a colon, its value.
pub open spec fn rendering_member(member: MemberValue) -> Seq<char>
    decreases member,
{
    json_quoted(member.name) + ":"@ + rendering(member.value)
}

/// The texts of `members`, with a comma between each two.
pub open spec fn rendering_members(members: Seq<MemberValue>) -> Seq<char>
    decreases members,
{
    if members.len() == 0 {
        Seq::empty()
    } else if members.len() == 1 {
        rendering_member(members[0])
    } else {
        rendering_members(members.drop_last()) + ","@ + rendering_member(members.last())
    }
}

/// Writes a string as a JSON string literal, through
/// `serde_json::to_string`. The contract only gives the literal its name.
#[verifier::external_body]
fn quote(text: &str) -> (s: String)
    ensures
        s@ == json_quoted(text@),
{
    serde_json::to_string(text).unwrap_or_default()
}

impl Json {
    /// Writes the document as compact JSON text.
    pub fn render(&self) -> (s: String)
        ensures
            s@ == rendering(self@),
        decreases self,
    {
        match self {
            Json::Null => String::from_str("null"),
            Json::Bool(b) => if *b {
                String::from_str("true")
            } else {
                String::from_str("false")
            },
            Json::Number(text) => text.clone(),
            Json::Text(text) => quote(text.as_str()),
            Json::Array(items) => {
                let ghost values = self@->Array_0;
                let mut s = String::from_str("[");
                let mut i: usize = 0;
                proof {
                    assert(values.take(0) =~= Seq::<JsonValue>::empty());
                }
                while i < items.len()
                    invariant
                        i <= items.len(),
                        self == Json::Array(*items),
                        self@ == JsonValue::Array(values),
                        values.len() == items.len(),
                        forall|k: int| 0 <= k < values.len() ==> values[k] == (#[trigger] items@[k])@,
                        s@ == "["@ + rendering_items(values.take(i as int)),
                    decreases items.len() - i,
                {
                    if i > 0 {
                        s.append(",");
                    }
                    let piece = items[i].render();
                    s.append(piece.as_str());
                    proof {
                        let next = values.take(i + 1);
                        assert(next.drop_last() =~= values.take(i as int));
                        assert(next.last() == values[i as int]);
                        assert(s@ =~= "["@ + rendering_items(next));
                    }
                    i += 1;
                }
                proof {
                    assert(values.take(i as int) =~= values);
                }
                s.append("]");
                s
            },
            Json::Object(members) => {
                let ghost values = self@->Object_0;
                let mut s = String::from_str("{");
                let mut i: usize = 0;
                proof {
                    assert(values.take(0) =~= Seq::<MemberValue>::empty());
                }
                while i < members.len()
                    invariant
                        i <= members.len(),
                        self == Json::Object(*members),
                        self@ == JsonValue::Object(values),
                        values.len() == members.len(),
                        forall|k: int|
                            0 <= k < values.len() ==> (#[trigger] values[k]).name == members@[k].name@
                                && values[k].value == members@[k].value@,
                        s@ == "{"@ + rendering_members(values.take(i as int)),
                    decreases members.len() - i,
                {
                    let ghost before = s@;
                    if i > 0 {
                        s.append(",");
                    }
                    let name = quote(members[i].name.as_str());
                    s.append(name.as_str());
                    s.append(":");
                    let piece = members[i].value.render();
                    s.append(piece.as_str());
                    proof {
                        let next = values.take(i + 1);
                        assert(next.drop_last() =~= values.take(i as int));
                        assert(next.last() == values[i as int]);
                        let member = rendering_member(values[i as int]);
                        assert(member == name@ + ":"@ + piece@);
                        if i > 0 {
                            assert(s@ =~= before + (","@ + member));
                            assert(rendering_members(next) =~= rendering_members(
                                values.take(i as int),
                            ) + ","@ + member);
                        } else {
                            assert(rendering_members(values.take(0)) =~= Seq::<char>::empty());
                            assert(s@ =~= before + member);
                            assert(rendering_members(next) == member);
                        }
                        assert(s@ =~= "{"@ + rendering_members(next));
                    }
                    i += 1;
                }
                proof {
                    assert(values.take(i as int) =~= values);
                }
                s.append("}");
                s
            },
        }
    }
}

} // verus!
