//! Numeric entry built on [`TextInput`].
//!
//! The buffer holds the decimal form of a cached [`Num`].  Every frame, after
//! the inner field updates, the buffer is re-parsed — tolerating one trailing
//! dot — and on success the cached value follows the buffer; on failure the
//! value resets to zero and the buffer is cleared.  `set_value` rewrites the
//! buffer only (view-mode sync); `get_value` reads the cache (edit-mode
//! sync).

use vstd::prelude::*;
use vstd::string::StrSliceExecFns;
use crate::draw::DrawCmd;
use crate::geom::Rect;
use crate::input::FrameInput;
use crate::num::{
    lemma_num_str_form, lemma_parse_num_str, num_str, spec_parse, Num, MAX_MILLI,
};
use crate::strutil::string_pop;
use crate::text_input::{
    content_step, counter_step, focus_step, updated_step, TextInput, DT_LIMIT,
};

verus! {

/// A text field whose buffer mirrors a cached decimal value.
pub struct NumberTextInput {
    pub text: TextInput,
    pub current_value: Num,
}

/// A buffer with one trailing dot stripped, as the re-parse tolerates it.
pub open spec fn strip_dot(s: Seq<char>) -> Seq<char> {
    if s.len() > 0 && s.last() == '.' {
        s.drop_last()
    } else {
        s
    }
}

impl NumberTextInput {
    pub open spec fn wf(self) -> bool {
        self.text.wf() && self.current_value.wf()
    }

    pub fn new(value: Num, placeholder: &str) -> (r: NumberTextInput)
        requires
            value.wf(),
        ensures
            r.text.content@ == num_str(value.value()),
            r.text.placeholder@ == placeholder@,
            !r.text.focused,
            !r.text.updated,
            r.current_value == value,
            r.wf(),
    {
        let buf = value.to_decimal();
        NumberTextInput { text: TextInput::new(buf.as_str(), placeholder), current_value: value }
    }

    /// The cached numeric value — what edit-mode sync writes to the entity.
    pub fn get_value(&self) -> (r: Num)
        ensures
            r == self.current_value,
    {
        self.current_value
    }

    /// Rewrites the buffer to the decimal form of `num`; the cached value is
    /// left to the next frame's re-parse, as view-mode sync overwrites it
    /// anyway.
    pub fn set_value(&mut self, num: Num)
        requires
            num.wf(),
        ensures
            final(self).text == (TextInput {
                content: final(self).text.content,
                ..old(self).text
            }),
            final(self).text.content@ == num_str(num.value()),
            final(self).current_value == old(self).current_value,
    {
        let buf = num.to_decimal();
        self.text.set_value(buf);
    }

    /// One frame: the inner field updates, then the buffer is re-parsed.
    /// On a valid numeral the cache follows the buffer; otherwise the cache
    /// resets to zero and the buffer is cleared.
    pub fn update(&mut self, input: &FrameInput, row: Rect, dt: u64)
        requires
            row.wf(),
            old(self).wf(),
            dt <= DT_LIMIT,
        ensures
            final(self).wf(),
            final(self).text.placeholder == old(self).text.placeholder,
            final(self).text.focused == focus_step(old(self).text.focused, *input, row),
            final(self).text.updated == updated_step(
                old(self).text.content@,
                old(self).text.focused,
                *input,
            ),
            final(self).text.counter as int == counter_step(
                old(self).text.counter,
                dt,
                updated_step(old(self).text.content@, old(self).text.focused, *input),
            ),
            ({
                let c1 = content_step(old(self).text.content@, old(self).text.focused, *input);
                match spec_parse(strip_dot(c1)) {
                    Some(v) => final(self).text.content@ == c1
                        && final(self).current_value.value() == v,
                    None => final(self).text.content@.len() == 0
                        && final(self).current_value.value() == 0,
                }
            }),
    {
        self.text.update(input, row, dt);
        let ghost c1 = self.text.content@;
        let mut buf = self.text.get_value();
        let blen = buf.as_str().unicode_len();
        if blen > 0 {
            if buf.as_str().get_char(blen - 1) == '.' {
                let _ = string_pop(&mut buf);
            }
        }
        assert(buf@ == strip_dot(c1));
        match Num::parse_decimal(buf.as_str()) {
            Some(n) => {
                self.current_value = n;
            },
            None => {
                self.current_value = Num::zero();
                self.text.set_value(String::new());
                proof {
                    reveal_strlit("");
                }
            },
        }
    }

    /// The inner field's drawing commands.
    pub fn draw(&self, row: Rect, out: &mut Vec<DrawCmd>)
        requires
            row.wf(),
        ensures
            final(out)@ == old(out)@ + self.text.spec_draw(row),
    {
        self.text.draw(row, out);
    }
}

/// The row-free part of a numeric widget's frame: how the buffer and the
/// cached value move, regardless of where the widget was laid out.  The
/// buffer re-parses (one trailing dot tolerated); a valid numeral feeds the
/// cache, an invalid one clears both.
pub open spec fn number_value_steps(
    pre: NumberTextInput,
    post: NumberTextInput,
    input: FrameInput,
) -> bool {
    let c1 = content_step(pre.text.content@, pre.text.focused, input);
    match spec_parse(strip_dot(c1)) {
        Some(v) => post.text.content@ == c1 && post.current_value.value() == v,
        None => post.text.content@.len() == 0 && post.current_value.value() == 0,
    }
}

/// Round trip: rendering a representable value into the buffer and running
/// one frame in which nothing is typed (no text, no backspace) leaves the
/// numeral intact, so the re-parse recovers exactly that value — after
/// `set_value(v)` and a quiet frame, `get_value()` returns `v`.
pub proof fn lemma_number_round_trip(v: int, content: Seq<char>, focused: bool, input: FrameInput)
    requires
        -MAX_MILLI <= v <= MAX_MILLI,
        content == num_str(v),
        input.no_typing(),
    ensures
        content_step(content, focused, input) == content,
        spec_parse(strip_dot(content_step(content, focused, input))) == Some(v),
{
    assert(content + input.text@ =~= content);
    lemma_num_str_form(v);
    assert(content.last() != '.');
    assert(strip_dot(content) == content);
    lemma_parse_num_str(v);
}

} // verus!
