//! Static text rows.
//!
//! A `Text` widget displays a string at one of four preset pixel heights and
//! holds no per-frame state.  Its vertical footprint is three fifths of the
//! glyph height, so consecutive text rows sit tighter than widget rows.

use vstd::prelude::*;
use crate::draw::DrawCmd;
use crate::geom::Rect;

verus! {

/// A read-only text row; `size` indexes the preset height scale.
pub struct Text {
    pub size: usize,
    pub content: String,
}

/// The preset pixel heights, smallest first.
pub open spec fn spec_size_px(size: int) -> int {
    if size == 0 {
        16
    } else if size == 1 {
        20
    } else if size == 2 {
        24
    } else {
        28
    }
}

impl Text {
    pub open spec fn wf(self) -> bool {
        self.size < 4
    }

    /// The vertical space this row contributes to the layout pass.
    pub open spec fn spec_footprint(self) -> int {
        spec_size_px(self.size as int) * 3 / 5
    }

    pub fn new(size: usize, content: &str) -> (r: Text)
        requires
            size < 4,
        ensures
            r.size == size,
            r.content@ == content@,
            r.wf(),
    {
        Text { size, content: content.to_owned() }
    }

    /// The glyph height in pixels.
    pub fn size_px(&self) -> (r: i32)
        requires
            self.wf(),
        ensures
            r as int == spec_size_px(self.size as int),
    {
        if self.size == 0 {
            16
        } else if self.size == 1 {
            20
        } else if self.size == 2 {
            24
        } else {
            28
        }
    }

    /// The vertical footprint in pixels.
    pub fn footprint(&self) -> (r: i32)
        requires
            self.wf(),
        ensures
            r as int == self.spec_footprint(),
            9 <= r <= 16,
    {
        self.size_px() * 3 / 5
    }

    /// The draw command for this row: the string in the current color,
    /// raised by a fifth of the glyph height above the row top.
    pub open spec fn spec_draw(self, row: Rect) -> Seq<DrawCmd> {
        let px = spec_size_px(self.size as int);
        seq![
            (DrawCmd::Text {
                content: self.content,
                height: px as i32,
                x: row.x,
                y: (row.y - px / 5) as i32,
            }),
        ]
    }

    /// Emits this row's drawing command.
    pub fn draw(&self, row: Rect, out: &mut Vec<DrawCmd>)
        requires
            self.wf(),
            row.wf(),
        ensures
            final(out)@ == old(out)@ + self.spec_draw(row),
    {
        let px = self.size_px();
        out.push(
            DrawCmd::Text {
                content: self.content.clone(),
                height: px,
                x: row.x,
                y: row.y - px / 5,
            },
        );
        assert(out@ =~= old(out)@ + self.spec_draw(row));
    }
}

} // verus!
