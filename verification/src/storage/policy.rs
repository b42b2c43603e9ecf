//! The inline policy that narrows direct-upload credentials to the granted keys, and the
//! error of a failed credential request.

use vstd::prelude::*;

use crate::storage::model::StorageError;
use crate::storage::naming::hex_digit;
use crate::storage::sts::AliyunStsIssuer;
use crate::text::{concat, push_char};

verus! {

/// JSON form of one character inside a string, as `serde_json` writes it: quote and
/// backslash escaped, `\b \t \n \f \r` for those controls, `\u00xx` (lowercase hex)
/// for the other controls below 0x20, everything else as itself.
pub open spec fn json_char(c: char) -> Seq<char> {
    let v = c as u32;
    if c == '"' {
        seq!['\\', '"']
    } else if c == '\\' {
        seq!['\\', '\\']
    } else if v == 0x08 {
        seq!['\\', 'b']
    } else if v == 0x09 {
        seq!['\\', 't']
    } else if v == 0x0A {
        seq!['\\', 'n']
    } else if v == 0x0C {
        seq!['\\', 'f']
    } else if v == 0x0D {
        seq!['\\', 'r']
    } else if v < 0x20 {
        seq!['\\', 'u', '0', '0', hex_digit((v / 16) as nat), hex_digit((v % 16) as nat)]
    } else {
        seq![c]
    }
}

/// The escaped characters of a JSON string's contents.
pub open spec fn json_escaped(s: Seq<char>) -> Seq<char>
    decreases s.len(),
{
    if s.len() == 0 {
        Seq::empty()
    } else {
        json_escaped(s.drop_last()) + json_char(s.last())
    }
}

/// A JSON string literal.
pub open spec fn json_string(s: Seq<char>) -> Seq<char> {
    seq!['"'] + json_escaped(s) + seq!['"']
}

/// The comma-separated JSON strings of `items`.
pub open spec fn json_items(items: Seq<Seq<char>>) -> Seq<char>
    decreases items.len(),
{
    if items.len() == 0 {
        Seq::empty()
    } else if items.len() == 1 {
        json_string(items[0])
    } else {
        json_items(items.drop_last()) + seq![','] + json_string(items.last())
    }
}

/// Resource names of object keys in a bucket: `acs:oss:*:*:{bucket}/{key}`.
pub open spec fn resource_names(bucket: Seq<char>, keys: Seq<String>) -> Seq<Seq<char>> {
    Seq::new(keys.len(), |i: int| "acs:oss:*:*:"@ + bucket + "/"@ + keys[i]@)
}

/// The inline policy that allows `oss:PutObject` on exactly `resources`, written as
/// compact JSON with its keys in sorted order.
pub open spec fn upload_policy_of(resources: Seq<Seq<char>>) -> Seq<char> {
    "{\"Statement\":[{\"Action\":[\"oss:PutObject\"],\"Effect\":\"Allow\",\"Resource\":["@
        + json_items(resources) + "]}],\"Version\":\"1\"}"@
}

fn json_char_text(out: &mut String, c: char)
    ensures
        final(out)@ == old(out)@ + json_char(c),
{
    let v = c as u32;
    if c == '"' {
        push_char(out, '\\');
        push_char(out, '"');
    } else if c == '\\' {
        push_char(out, '\\');
        push_char(out, '\\');
    } else if v == 0x08 {
        push_char(out, '\\');
        push_char(out, 'b');
    } else if v == 0x09 {
        push_char(out, '\\');
        push_char(out, 't');
    } else if v == 0x0A {
        push_char(out, '\\');
        push_char(out, 'n');
    } else if v == 0x0C {
        push_char(out, '\\');
        push_char(out, 'f');
    } else if v == 0x0D {
        push_char(out, '\\');
        push_char(out, 'r');
    } else if v < 0x20 {
        push_char(out, '\\');
        push_char(out, 'u');
        push_char(out, '0');
        push_char(out, '0');
        push_char(out, crate::storage::naming::hex_char((v / 16) as u8));
        push_char(out, crate::storage::naming::hex_char((v % 16) as u8));
    } else {
        push_char(out, c);
    }
    assert(old(out)@ + json_char(c) =~= final(out)@) by {
        assert(final(out)@ =~= old(out)@ + json_char(c));
    }
}

/// Appends a JSON string literal to `out`.
fn push_json_string(out: &mut String, s: &str)
    ensures
        final(out)@ == old(out)@ + json_string(s@),
{
    let cs = crate::text::chars_of(s);
    let n = cs.len();
    let ghost start = out@;
    push_char(out, '"');
    for i in 0..n
        invariant
            n == cs@.len(),
            cs@ == s@,
            out@ == start + seq!['"'] + json_escaped(s@.take(i as int)),
    {
        json_char_text(out, cs[i]);
        assert(s@.take(i + 1).drop_last() =~= s@.take(i as int));
        assert(s@.take(i + 1).last() == cs@[i as int]);
    }
    assert(s@.take(n as int) =~= s@);
    push_char(out, '"');
    assert(out@ =~= start + json_string(s@));
}

impl AliyunStsIssuer {
    /// The inline policy for the granted keys: `oss:PutObject` on their resource names.
    pub fn upload_policy(&self, keys: &Vec<String>) -> (r: String)
        ensures
            r@ == upload_policy_of(resource_names(self.bucket@, keys@)),
    {
        let resources = self.resources(keys);
        let mut out = "{\"Statement\":[{\"Action\":[\"oss:PutObject\"],\"Effect\":\"Allow\",\"Resource\":[".to_owned();
        let ghost head = out@;
        let n = resources.len();
        for i in 0..n
            invariant
                n == resources@.len(),
                out@ == head + json_items(resources@.map_values(|x: String| x@).take(i as int)),
        {
            if i > 0 {
                push_char(&mut out, ',');
            }
            push_json_string(&mut out, resources[i].as_str());
            proof {
                let vs = resources@.map_values(|x: String| x@);
                assert(vs.take(i + 1).drop_last() =~= vs.take(i as int));
                assert(vs.take(i + 1).last() == resources@[i as int]@);
                if i == 0 {
                    assert(vs.take(0) =~= Seq::<Seq<char>>::empty());
                }
            }
        }
        let tail = concat(out.as_str(), "]}],\"Version\":\"1\"}");
        proof {
            let vs = resources@.map_values(|x: String| x@);
            assert(vs.take(n as int) =~= vs);
            assert(vs =~= resource_names(self.bucket@, keys@));
        }
        tail
    }

    /// A failure of the credential service, reported as a backend error.
    pub fn issue_failure(text: &str) -> (e: StorageError)
        ensures
            e matches StorageError::Backend(t) && t@ == "STS 签发失败: "@ + text@,
    {
        StorageError::Backend(concat("STS 签发失败: ", text))
    }
}

} // verus!
