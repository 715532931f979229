//! The types that type tags name.

use crate::generator::ir::{ElemType, IrType};
use crate::generator::model::{named_type, tag_length, tag_type};
use crate::generator::Generator;
use crate::lexer::{all_digits, chars_of, decimal_value, is_digit, lemma_decimal_value_grows};
use crate::names::same_text;
use vstd::prelude::*;

verus! {

/// Reads the length in the tag of a byte array: the number behind the
/// first three characters.
pub fn tag_digits(tag: &Vec<char>) -> (r: Option<u32>)
    ensures
        r == tag_length(tag@),
{
    if tag.len() <= 3 {
        return None;
    }
    let ghost digits = tag@.subrange(3, tag@.len() as int);
    let mut acc: u32 = 0;
    let mut i: usize = 3;
    assert(digits.take(0) =~= Seq::<char>::empty());
    while i < tag.len()
        invariant
            3 <= i <= tag.len(),
            digits == tag@.subrange(3, tag@.len() as int),
            all_digits(digits.take(i - 3)),
            acc == decimal_value(digits.take(i - 3)),
        decreases tag.len() - i,
    {
        let c: char = tag[i];
        assert(digits[i - 3] == c);
        if !('0' <= c && c <= '9') {
            assert(!is_digit(digits[i - 3]));
            return None;
        }
        let d: u32 = c as u32 - '0' as u32;
        proof {
            assert(digits.take(i - 3 + 1).drop_last() == digits.take(i - 3));
            assert forall|j: int| 0 <= j < i - 3 + 1 implies is_digit(
                #[trigger] digits.take(i - 3 + 1)[j],
            ) by {
                if j < i - 3 {
                    assert(digits.take(i - 3)[j] == digits[j]);
                }
            }
        }
        if acc > (u32::MAX - d) / 10 {
            proof {
                assert(decimal_value(digits.take(i - 3 + 1)) > u32::MAX);
                if all_digits(digits) {
                    lemma_decimal_value_grows(digits, i - 3 + 1);
                }
            }
            return None;
        }
        acc = acc * 10 + d;
        i += 1;
    }
    assert(digits.take(i - 3) == digits);
    Some(acc)
}

/// The type that the tag of an array literal or of a conditional names.
pub fn tag_to_type(tag: &str) -> (r: Option<ElemType>)
    ensures
        r == tag_type(tag@),
{
    if same_text(tag, "i32") {
        Some(ElemType::I32)
    } else if same_text(tag, "bool") {
        Some(ElemType::Bool)
    } else if same_text(tag, "void") {
        Some(ElemType::Void)
    } else if same_text(tag, "str") {
        Some(ElemType::PStr)
    } else {
        let chars = chars_of(tag);
        proof {
            reveal_strlit("str");
            if chars@.len() > 3 {
                assert((tag@.subrange(0, 3) == "str"@) == (chars@[0] == 's' && chars@[1] == 't'
                    && chars@[2] == 'r')) by {
                    if chars@[0] == 's' && chars@[1] == 't' && chars@[2] == 'r' {
                        assert(tag@.subrange(0, 3) =~= "str"@);
                    } else {
                        assert(tag@.subrange(0, 3)[0] == tag@[0]);
                        assert(tag@.subrange(0, 3)[1] == tag@[1]);
                        assert(tag@.subrange(0, 3)[2] == tag@[2]);
                    }
                }
            }
        }
        if chars.len() > 3 && chars[0] == 's' && chars[1] == 't' && chars[2] == 'r' {
            match tag_digits(&chars) {
                Some(n) => Some(ElemType::Str(n)),
                None => None,
            }
        } else {
            None
        }
    }
}

impl Generator {
    /// The type that a declaration, a parameter or a field names.
    pub fn str_to_type(&self, tag: &str) -> (r: Option<IrType>)
        requires
            self.wf(),
        ensures
            r == named_type(self@.structs, tag@),
    {
        if same_text(tag, "i32") {
            Some(IrType::I32)
        } else if same_text(tag, "i64") {
            Some(IrType::I32)
        } else if same_text(tag, "bool") {
            Some(IrType::Bool)
        } else if same_text(tag, "void") {
            Some(IrType::Void)
        } else if same_text(tag, "str") {
            Some(IrType::PStr)
        } else if same_text(tag, "intarr") {
            Some(IrType::PArr)
        } else {
            match self.find_struct(tag) {
                Some(k) => Some(IrType::Struct(k)),
                None => None,
            }
        }
    }
}

} // verus!
