//! Labels: named, coloured tags that categorise issues within a project.

use vstd::prelude::*;
use crate::clock::{now, Timestamp};
use crate::text::{
    all_dotted_id_chars, byte_len, copy_str, is_dotted_id_char, is_hex_digit, str_byte_len,
};

verus! {

/// Label identifier.
pub type LabelId = String;

/// A label.
#[derive(Debug, Clone)]
pub struct Label {
    pub id: LabelId,
    pub name: String,
    pub description: Option<String>,
    pub color: String,
    pub created_at: Timestamp,
}

/// Label ids are 1 to 50 bytes of letters, digits, `.`, `_` and `-`.
pub open spec fn valid_label_id(id: Seq<char>) -> bool {
    id.len() > 0 && byte_len(id) <= 50 && forall|i: int| 0 <= i < id.len() ==> is_dotted_id_char(#[trigger] id[i])
}

/// Label names are 1 to 50 bytes.
pub open spec fn valid_label_name(name: Seq<char>) -> bool {
    name.len() > 0 && byte_len(name) <= 50
}

/// Label descriptions are at most 200 bytes.
pub open spec fn valid_label_description(d: Seq<char>) -> bool {
    byte_len(d) <= 200
}

/// Colours are `#RRGGBB`: seven bytes, a `#` and six hexadecimal digits.
pub open spec fn valid_color(c: Seq<char>) -> bool {
    &&& byte_len(c) == 7
    &&& c.len() > 0
    &&& c[0] == '#'
    &&& forall|i: int| 1 <= i < c.len() ==> is_hex_digit(#[trigger] c[i])
}

/// Value of a hexadecimal digit.
pub open spec fn hex_value(c: char) -> int {
    if '0' <= c && c <= '9' {
        c as int - '0' as int
    } else if 'a' <= c && c <= 'f' {
        c as int - 'a' as int + 10
    } else {
        c as int - 'A' as int + 10
    }
}

/// Value of the two hexadecimal digits at `i` and `i + 1`.
pub open spec fn hex_pair(c: Seq<char>, i: int) -> int {
    16 * hex_value(c[i]) + hex_value(c[i + 1])
}

/// Executable [`hex_value`].
fn hex_digit_value(c: char) -> (v: u8)
    requires
        is_hex_digit(c),
    ensures
        v as int == hex_value(c),
        v < 16,
{
    if '0' <= c && c <= '9' {
        ((c as u32) - ('0' as u32)) as u8
    } else if 'a' <= c && c <= 'f' {
        ((c as u32) - ('a' as u32) + 10) as u8
    } else {
        ((c as u32) - ('A' as u32) + 10) as u8
    }
}

/// A valid colour's seven characters are all one byte each.
proof fn lemma_valid_color_len(c: Seq<char>)
    requires
        valid_color(c),
        c.len() <= usize::MAX,
    ensures
        c.len() == 7,
{
    assert(vstd::utf8::is_ascii_chars(c)) by {
        assert forall|i: int| 0 <= i < c.len() implies '\0' <= #[trigger] c[i] <= '\u{7f}' by {
            if i > 0 {
                assert(is_hex_digit(c[i]));
            }
        }
    }
    vstd::utf8::is_ascii_chars_encode_utf8(c);
}

impl Label {
    /// Creates a label without description, stamped with the current time.
    pub fn new(id: LabelId, name: String, color: String) -> (l: Self)
        ensures
            l.id@ == id@,
            l.name@ == name@,
            l.color@ == color@,
            l.description is None,
    {
        Label { id, name, description: None, color, created_at: now() }
    }

    /// Creates a label with a description, stamped with the current time.
    pub fn with_description(id: LabelId, name: String, color: String, description: String) -> (l: Self)
        ensures
            l.id@ == id@,
            l.name@ == name@,
            l.color@ == color@,
            l.description matches Some(d) && d@ == description@,
    {
        Label { id, name, description: Some(description), color, created_at: now() }
    }

    /// Whether an id is acceptable.
    pub fn validate_id(id: &str) -> (b: bool)
        ensures
            b == valid_label_id(id@),
    {
        !id.is_empty() && str_byte_len(id) <= 50 && all_dotted_id_chars(id)
    }

    /// Whether a name is acceptable.
    pub fn validate_name(name: &str) -> (b: bool)
        ensures
            b == valid_label_name(name@),
    {
        !name.is_empty() && str_byte_len(name) <= 50
    }

    /// Whether a colour is in `#RRGGBB` form.
    pub fn validate_color(color: &str) -> (b: bool)
        ensures
            b == valid_color(color@),
    {
        if str_byte_len(color) != 7 {
            return false;
        }
        let n = color.unicode_len();
        if n == 0 || color.get_char(0) != '#' {
            return false;
        }
        let mut i: usize = 1;
        while i < n
            invariant
                n == color@.len(),
                1 <= i <= n,
                forall|j: int| 1 <= j < i ==> is_hex_digit(#[trigger] color@[j]),
            decreases n - i,
        {
            let c = color.get_char(i);
            if !(('0' <= c && c <= '9') || ('a' <= c && c <= 'f') || ('A' <= c && c <= 'F')) {
                return false;
            }
            i = i + 1;
        }
        true
    }

    /// Whether a description is acceptable.
    pub fn validate_description(description: &str) -> (b: bool)
        ensures
            b == valid_label_description(description@),
    {
        str_byte_len(description) <= 200
    }

    /// Replaces the description.
    pub fn set_description(&mut self, description: Option<String>)
        ensures
            *final(self) == (Label { description, ..*old(self) }),
    {
        self.description = description;
    }

    /// Renames the label when the new name is valid; otherwise nothing changes.
    pub fn set_name(&mut self, name: String) -> (r: Result<(), String>)
        ensures
            r is Ok <==> valid_label_name(name@),
            r is Ok ==> *final(self) == (Label { name, ..*old(self) }),
            r matches Err(m) ==> m@ == "Invalid label name"@ && *final(self) == *old(self),
    {
        if !Self::validate_name(name.as_str()) {
            proof { reveal_strlit("Invalid label name"); }
            return Err(copy_str("Invalid label name"));
        }
        self.name = name;
        Ok(())
    }

    /// Recolours the label when the new colour is valid; otherwise nothing changes.
    pub fn set_color(&mut self, color: String) -> (r: Result<(), String>)
        ensures
            r is Ok <==> valid_color(color@),
            r is Ok ==> *final(self) == (Label { color, ..*old(self) }),
            r matches Err(m) ==> m@ == "Invalid color format. Expected #RRGGBB"@ && *final(self) == *old(self),
    {
        if !Self::validate_color(color.as_str()) {
            proof { reveal_strlit("Invalid color format. Expected #RRGGBB"); }
            return Err(copy_str("Invalid color format. Expected #RRGGBB"));
        }
        self.color = color;
        Ok(())
    }

    /// The red, green and blue components of a valid colour.
    pub fn rgb_values(&self) -> (r: Result<(u8, u8, u8), String>)
        ensures
            r is Ok <==> valid_color(self.color@),
            r matches Ok((red, green, blue)) ==> {
                &&& red as int == hex_pair(self.color@, 1)
                &&& green as int == hex_pair(self.color@, 3)
                &&& blue as int == hex_pair(self.color@, 5)
            },
            r matches Err(m) ==> m@ == "Invalid color format"@,
    {
        if !Self::validate_color(self.color.as_str()) {
            proof { reveal_strlit("Invalid color format"); }
            return Err(copy_str("Invalid color format"));
        }
        let c = self.color.as_str();
        let _n = c.unicode_len();
        proof { lemma_valid_color_len(self.color@); }
        let r1 = hex_digit_value(c.get_char(1));
        let r2 = hex_digit_value(c.get_char(2));
        let g1 = hex_digit_value(c.get_char(3));
        let g2 = hex_digit_value(c.get_char(4));
        let b1 = hex_digit_value(c.get_char(5));
        let b2 = hex_digit_value(c.get_char(6));
        Ok((16 * r1 + r2, 16 * g1 + g2, 16 * b1 + b2))
    }
}

} // verus!
