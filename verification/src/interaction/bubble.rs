use vstd::prelude::*;

verus! {

/// Space between the bubble's border and its text, in pixels.
pub const BUBBLE_PADDING: i32 = 6;

/// Where a bubble is drawn: its rectangle and where its text starts, in the
/// coordinates of the window's bitmap.
#[derive(Debug, Clone, Copy, PartialEq, Eq, Structural)]
pub struct BubbleLayout {
    pub left: i32,
    pub top: i32,
    pub right: i32,
    pub bottom: i32,
    pub text_x: i32,
    pub text_y: i32,
}

/// Integer halving that rounds toward zero, as Rust's `/` does.
pub open spec fn half(v: int) -> int {
    if v >= 0 {
        v / 2
    } else {
        -((-v) / 2)
    }
}

pub open spec fn fits_i32(v: int) -> bool {
    i32::MIN <= v <= i32::MAX
}

/// Bubble width, height, left and top for a text of the given extent.
pub open spec fn bubble_box(text_w: int, text_h: int, center_x: int, float_offset: int) -> (
    int,
    int,
    int,
    int,
) {
    let w = text_w + 2 * BUBBLE_PADDING;
    let h = text_h + 2 * BUBBLE_PADDING;
    let x = center_x - half(w);
    let y = if float_offset > 0 {
        float_offset
    } else {
        0
    };
    (w, h, x, y)
}

/// The arithmetic of the layout stays within `i32`, as far as the layout
/// gets before it gives up.
pub open spec fn layout_fits(
    text_w: int,
    text_h: int,
    center_x: int,
    float_offset: int,
    dib_h: int,
) -> bool {
    let (w, h, x, y) = bubble_box(text_w, text_h, center_x, float_offset);
    &&& fits_i32(w)
    &&& fits_i32(h)
    &&& fits_i32(x)
    &&& x >= 0 ==> fits_i32(y + h)
    &&& x >= 0 && y + h <= dib_h ==> fits_i32(x + w)
    &&& x >= 0 && y + h <= dib_h ==> fits_i32(x + BUBBLE_PADDING)
    &&& x >= 0 && y + h <= dib_h ==> fits_i32(y + BUBBLE_PADDING)
}

/// Where to draw the bubble above the pet: centred on `center_x`, at the
/// top of the bitmap moved down by `float_offset` when that is positive,
/// `BUBBLE_PADDING` pixels around a text of extent `text_w` by `text_h`.
/// Nothing is drawn for a hidden bubble, an empty text, or a bubble that
/// would stick out of the `dib_w` by `dib_h` bitmap.
pub fn bubble_layout(
    visible: bool,
    text_empty: bool,
    text_w: i32,
    text_h: i32,
    center_x: i32,
    float_offset: i32,
    dib_w: i32,
    dib_h: i32,
) -> (r: Option<BubbleLayout>)
    requires
        visible && !text_empty ==> layout_fits(
            text_w as int,
            text_h as int,
            center_x as int,
            float_offset as int,
            dib_h as int,
        ),
    ensures
        ({
            let (w, h, x, y) = bubble_box(
                text_w as int,
                text_h as int,
                center_x as int,
                float_offset as int,
            );
            if !visible || text_empty || x < 0 || y + h > dib_h || x + w > dib_w {
                r is None
            } else {
                r == Some(
                    BubbleLayout {
                        left: x as i32,
                        top: y as i32,
                        right: (x + w) as i32,
                        bottom: (y + h) as i32,
                        text_x: (x + BUBBLE_PADDING) as i32,
                        text_y: (y + BUBBLE_PADDING) as i32,
                    },
                )
            }
        }),
{
    if !visible || text_empty {
        return None;
    }
    let padding = BUBBLE_PADDING;
    let bubble_w = text_w + padding * 2;
    let bubble_h = text_h + padding * 2;
    let half_w = if bubble_w >= 0 {
        bubble_w / 2
    } else {
        -((-(bubble_w as i64)) / 2) as i32
    };
    let bubble_x = center_x - half_w;
    let bubble_y = if float_offset > 0 {
        float_offset
    } else {
        0
    };
    if bubble_x < 0 || bubble_y + bubble_h > dib_h || bubble_x + bubble_w > dib_w {
        return None;
    }
    Some(
        BubbleLayout {
            left: bubble_x,
            top: bubble_y,
            right: bubble_x + bubble_w,
            bottom: bubble_y + bubble_h,
            text_x: bubble_x + padding,
            text_y: bubble_y + padding,
        },
    )
}

/// A drawn bubble lies inside the bitmap, starting at or below its top edge.
pub proof fn law_bubble_inside_bitmap(
    text_w: i32,
    text_h: i32,
    center_x: i32,
    float_offset: i32,
    dib_w: i32,
    dib_h: i32,
)
    requires
        text_w >= 0,
        text_h >= 0,
    ensures
        ({
            let (w, h, x, y) = bubble_box(
                text_w as int,
                text_h as int,
                center_x as int,
                float_offset as int,
            );
            !(x < 0 || y + h > dib_h || x + w > dib_w) ==> 0 <= x && x + w <= dib_w && 0 <= y
                && y + h <= dib_h && y >= float_offset
        }),
{
}

/// What the pet says now and then: something fond when its affection is
/// above 50, something lonely otherwise.
pub open spec fn bubble_texts(affection: u32) -> Seq<Seq<char>> {
    if affection > 50 {
        seq!["\u{2665}"@, "hi~"@, "pat me!"@, "hehe"@, "I like you!"@]
    } else {
        seq!["..."@, "hungry"@, "bored"@, "hmm?"@, "zzz"@]
    }
}

/// Picks one of the texts for the pet's affection at random.
pub fn random_bubble_text(affection: u32) -> (t: &'static str)
    ensures
        bubble_texts(affection).contains(t@),
{
    let texts: Vec<&'static str> = if affection > 50 {
        vec!["\u{2665}", "hi~", "pat me!", "hehe", "I like you!"]
    } else {
        vec!["...", "hungry", "bored", "hmm?", "zzz"]
    };
    let idx = crate::random::random_index(texts.len());
    let t = texts[idx];
    assert(bubble_texts(affection)[idx as int] == t@);
    t
}

} // verus!
