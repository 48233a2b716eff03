//! Where the bot points and clicks: the centre of a detected region, salted
//! by a few random pixels, and the gestures that move the mouse there.

use vstd::prelude::*;
use rand::Rng;
use crate::detect::{Finding, Region, lenient_region, read_region_leniently};

verus! {

/// Calls `rand::thread_rng().gen_range(lo..hi)` (rand 0.8): a number drawn
/// from `lo..hi`. The contract states only that the number lies in that
/// range, which is all that rand promises of it; `gen_range` panics on an
/// empty range, so the range must not be empty.
#[verifier::external_body]
fn random_between(lo: i32, hi: i32) -> (r: i32)
    requires
        lo < hi,
    ensures
        lo <= r < hi,
{
    rand::thread_rng().gen_range(lo..hi)
}

/// Whether an integer fits in an `i32`.
pub open spec fn in_i32(v: int) -> bool {
    i32::MIN <= v <= i32::MAX
}

/// Rust's `d / 2` on integers: rounds toward zero.
pub open spec fn half_toward_zero(d: int) -> int {
    if d >= 0 {
        d / 2
    } else {
        -((-d) / 2)
    }
}

/// The middle of `a..b` as `((b - a) / 2) + a` computes it.
pub open spec fn middle(a: int, b: int) -> int {
    half_toward_zero(b - a) + a
}

/// `((b - a) / 2) + a + offset + salt` in `i32` arithmetic; `None` where a
/// step overflows (the bot gives up there).
pub open spec fn aim_spec(a: int, b: int, offset: int, salt: int) -> Option<i32> {
    let m = middle(a, b);
    if in_i32(b - a) && in_i32(m + offset) && in_i32(m + offset + salt) {
        Some((m + offset + salt) as i32)
    } else {
        None
    }
}

/// The middle of `a..b`, moved by `offset` and `salt`.
pub fn aim(a: i32, b: i32, offset: i32, salt: i32) -> (r: Option<i32>)
    ensures
        r == aim_spec(a as int, b as int, offset as int, salt as int),
{
    let d: i64 = (b as i64) - (a as i64);
    if d < i32::MIN as i64 || d > i32::MAX as i64 {
        return None;
    }
    let h: i64 = if d >= 0 {
        d / 2
    } else {
        -((-d) / 2)
    };
    let m: i64 = h + (a as i64);
    let t: i64 = m + (offset as i64);
    if t < i32::MIN as i64 || t > i32::MAX as i64 {
        return None;
    }
    let u: i64 = t + (salt as i64);
    if u < i32::MIN as i64 || u > i32::MAX as i64 {
        return None;
    }
    Some(u as i32)
}

/// Draws the salt that keeps the bot from clicking the same pixel twice.
pub fn draw_salt() -> (s: i32)
    ensures
        -9 <= s < 9,
{
    random_between(-9, 9)
}

/// Whether `(x, y)` is the centre of `r` moved by one salt in `-9..9` on
/// both axes.
pub open spec fn near_center(r: Region, x: i32, y: i32) -> bool {
    let sx = x - middle(r.x1 as int, r.x2 as int);
    let sy = y - middle(r.y1 as int, r.y2 as int);
    sx == sy && -9 <= sx < 9
}

/// Whether aiming at `r` with some salt in `-9..9` overflows `i32`.
pub open spec fn aim_may_overflow(r: Region) -> bool {
    !(in_i32(r.x2 - r.x1) && in_i32(r.y2 - r.y1) && in_i32(middle(r.x1 as int, r.x2 as int) - 9)
        && in_i32(middle(r.x1 as int, r.x2 as int) + 8) && in_i32(middle(r.y1 as int, r.y2 as int)
        - 9) && in_i32(middle(r.y1 as int, r.y2 as int) + 8))
}

/// Aims at a region with a fresh salt; `None` where the centre moved by
/// some salt leaves `i32` (the arithmetic would overflow for some salts;
/// the bot gives up whichever salt it would draw).
pub fn aim_at_region(r: Region) -> (p: Option<(i32, i32)>)
    ensures
        match p {
            Some((x, y)) => near_center(r, x, y),
            None => aim_may_overflow(r),
        },
        p is None <==> aim_may_overflow(r),
{
    if aim(r.x1, r.x2, 0, -9).is_none() || aim(r.x1, r.x2, 0, 8).is_none() || aim(r.y1, r.y2, 0, -9).is_none()
        || aim(r.y1, r.y2, 0, 8).is_none() {
        return None;
    }
    let salt = draw_salt();
    match (aim(r.x1, r.x2, 0, salt), aim(r.y1, r.y2, 0, salt)) {
        (Some(x), Some(y)) => Some((x, y)),
        _ => None,
    }
}

/// A mouse button.
#[derive(PartialEq, Eq, Structural, Clone, Copy, Debug)]
pub enum MouseButton {
    Left,
    Right,
}

/// The key sequences that the bot types.
#[derive(PartialEq, Eq, Structural, Clone, Copy, Debug)]
pub enum KeyStroke {
    /// `{+META}m{-META}`: minimise every window.
    ShowDesktop,
    /// `{+META}{-META}`: tap the Windows key.
    TapMeta,
    /// `{+ALT}{+TAB}`.
    AltTabDown,
    /// `{-TAB}{-ALT}`.
    AltTabUp,
    /// `{+CONTROL}a{-CONTROL}{+DELETE}{-DELETE}`: empty a text field.
    ClearField,
    /// A click of the Windows key.
    Windows,
    /// A click of the Return key.
    Enter,
    /// A click of the Escape key.
    Escape,
}

/// A quadratic Bezier path of the mouse.
#[derive(PartialEq, Eq, Structural, Clone, Copy, Debug)]
pub struct Path {
    pub from_x: i32,
    pub from_y: i32,
    pub to_x: i32,
    pub to_y: i32,
    pub ctrl_x: i32,
    pub ctrl_y: i32,
    pub steps: usize,
}

/// One thing to do with the keyboard or the mouse.
#[derive(PartialEq, Eq, Structural, Clone, Copy, Debug)]
pub enum Gesture {
    Press(KeyStroke),
    Pause(u64),
    Jump { x: i32, y: i32 },
    Glide(Path),
    Click(MouseButton),
}

/// Why a click could not be planned.
#[derive(Debug)]
pub enum CommandError {
    /// The detector did not end successfully; it printed this.
    ExecutionFailed(String),
    /// The target's coordinates overflow `i32`.
    Overflow,
}

/// The random choices of one click or move.
#[derive(PartialEq, Eq, Structural, Clone, Copy, Debug)]
pub struct ClickDraw {
    pub salt: i32,
    pub steps: usize,
    pub ctrl_x: i32,
    pub ctrl_y: i32,
    pub first_pause: u64,
    pub second_pause: u64,
}

/// The ranges that the choices of a click on a detected region come from.
pub open spec fn detected_draw_ok(
    d: ClickDraw,
    smooth: bool,
    mouse_x: i32,
    mouse_y: i32,
    screen_w: i32,
    screen_h: i32,
) -> bool {
    &&& -9 <= d.salt < 9
    &&& smooth ==> {
        &&& 50 <= d.steps < 100
        &&& mouse_x <= d.ctrl_x < screen_w
        &&& mouse_y <= d.ctrl_y < screen_h
        &&& 50 <= d.first_pause < 70
        &&& 500 <= d.second_pause < 1000
    }
}

/// Draws the random choices of a click on a detected region: the salt and,
/// for a smooth click, the number of steps, a control point between the
/// mouse and the far corner of the screen, and two pauses.
pub fn draw_detected_click(
    smooth: bool,
    mouse_x: i32,
    mouse_y: i32,
    screen_w: i32,
    screen_h: i32,
) -> (d: ClickDraw)
    requires
        smooth ==> mouse_x < screen_w && mouse_y < screen_h,
    ensures
        detected_draw_ok(d, smooth, mouse_x, mouse_y, screen_w, screen_h),
{
    let salt = draw_salt();
    if smooth {
        let steps = random_between(50, 100);
        let ctrl_x = random_between(mouse_x, screen_w);
        let ctrl_y = random_between(mouse_y, screen_h);
        let first = random_between(50, 70);
        let second = random_between(500, 1000);
        ClickDraw {
            salt,
            steps: steps as usize,
            ctrl_x,
            ctrl_y,
            first_pause: first as u64,
            second_pause: second as u64,
        }
    } else {
        ClickDraw { salt, steps: 0, ctrl_x: 0, ctrl_y: 0, first_pause: 0, second_pause: 0 }
    }
}

/// The gestures of a click on the region that a detector printed.
pub open spec fn detected_click_plan(
    out: Seq<char>,
    smooth: bool,
    offset_x: i32,
    offset_y: i32,
    button: MouseButton,
    d: ClickDraw,
) -> Option<Seq<Gesture>> {
    let r = lenient_region(out);
    let ax = aim_spec(r.x1 as int, r.x2 as int, offset_x as int, d.salt as int);
    let ay = aim_spec(r.y1 as int, r.y2 as int, offset_y as int, d.salt as int);
    if ax is None || ay is None {
        None
    } else if smooth {
        Some(
            seq![
                Gesture::Press(KeyStroke::ShowDesktop),
                Gesture::Glide(
                    Path {
                        from_x: r.x1,
                        from_y: r.y1,
                        to_x: ax->0,
                        to_y: ay->0,
                        ctrl_x: d.ctrl_x,
                        ctrl_y: d.ctrl_y,
                        steps: d.steps,
                    },
                ),
                Gesture::Press(KeyStroke::AltTabDown),
                Gesture::Pause(d.first_pause),
                Gesture::Press(KeyStroke::AltTabUp),
                Gesture::Pause(d.second_pause),
                Gesture::Click(button),
            ],
        )
    } else {
        Some(seq![Gesture::Jump { x: ax->0, y: ay->0 }, Gesture::Click(button)])
    }
}

/// Plans a click on the region that a detector reported: fails with the
/// detector's output where it did not end successfully; else aims at the
/// region read leniently from its first four words, either jumping there or,
/// when `smooth`, leaving the game, gliding there from the region's first
/// corner and switching back before the click.
fn plan_detected_click(
    succeeded: bool,
    out: &str,
    smooth: bool,
    offset_x: i32,
    offset_y: i32,
    button: MouseButton,
    d: ClickDraw,
) -> (r: Result<Vec<Gesture>, CommandError>)
    ensures
        !succeeded ==> (r matches Err(CommandError::ExecutionFailed(s)) && s@ == out@),
        succeeded ==> match detected_click_plan(out@, smooth, offset_x, offset_y, button, d) {
            None => r matches Err(CommandError::Overflow),
            Some(g) => r matches Ok(v) && v@ == g,
        },
{
    if !succeeded {
        return Err(CommandError::ExecutionFailed(out.to_owned()));
    }
    let r = read_region_leniently(out);
    let ax = aim(r.x1, r.x2, offset_x, d.salt);
    let ay = aim(r.y1, r.y2, offset_y, d.salt);
    match (ax, ay) {
        (Some(x), Some(y)) => {
            if smooth {
                let v = vec![
                    Gesture::Press(KeyStroke::ShowDesktop),
                    Gesture::Glide(
                        Path {
                            from_x: r.x1,
                            from_y: r.y1,
                            to_x: x,
                            to_y: y,
                            ctrl_x: d.ctrl_x,
                            ctrl_y: d.ctrl_y,
                            steps: d.steps,
                        },
                    ),
                    Gesture::Press(KeyStroke::AltTabDown),
                    Gesture::Pause(d.first_pause),
                    Gesture::Press(KeyStroke::AltTabUp),
                    Gesture::Pause(d.second_pause),
                    Gesture::Click(button),
                ];
                Ok(v)
            } else {
                Ok(vec![Gesture::Jump { x, y }, Gesture::Click(button)])
            }
        },
        _ => Err(CommandError::Overflow),
    }
}


/// Plans a left click on the region that a detector reported (see
/// `plan_detected_click`).
pub fn click_buton(
    succeeded: bool,
    out: &str,
    smooth: bool,
    offset_x: i32,
    offset_y: i32,
    d: ClickDraw,
) -> (r: Result<Vec<Gesture>, CommandError>)
    ensures
        !succeeded ==> (r matches Err(CommandError::ExecutionFailed(s)) && s@ == out@),
        succeeded ==> match detected_click_plan(out@, smooth, offset_x, offset_y, MouseButton::Left, d) {
            None => r matches Err(CommandError::Overflow),
            Some(g) => r matches Ok(v) && v@ == g,
        },
{
    plan_detected_click(succeeded, out, smooth, offset_x, offset_y, MouseButton::Left, d)
}

/// Plans a right click on the region that a detector reported (see
/// `plan_detected_click`).
pub fn click_buton_right(
    succeeded: bool,
    out: &str,
    smooth: bool,
    offset_x: i32,
    offset_y: i32,
    d: ClickDraw,
) -> (r: Result<Vec<Gesture>, CommandError>)
    ensures
        !succeeded ==> (r matches Err(CommandError::ExecutionFailed(s)) && s@ == out@),
        succeeded ==> match detected_click_plan(out@, smooth, offset_x, offset_y, MouseButton::Right, d) {
            None => r matches Err(CommandError::Overflow),
            Some(g) => r matches Ok(v) && v@ == g,
        },
{
    plan_detected_click(succeeded, out, smooth, offset_x, offset_y, MouseButton::Right, d)
}

/// The ranges that the choices of a direct click come from.
pub open spec fn direct_draw_ok(
    d: ClickDraw,
    minimize: bool,
    mouse_x: i32,
    mouse_y: i32,
    screen_w: i32,
    screen_h: i32,
) -> bool {
    if minimize {
        &&& 50 <= d.steps < 100
        &&& mouse_x <= d.ctrl_x < screen_w
        &&& mouse_y <= d.ctrl_y < screen_h
        &&& 50 <= d.first_pause < 70
        &&& 500 <= d.second_pause < 1000
    } else {
        &&& 20 <= d.steps < 30
        &&& mouse_x <= d.ctrl_x < mouse_x + 49
        &&& mouse_y <= d.ctrl_y < mouse_y + 49
        &&& 100 <= d.first_pause < 200
    }
}

/// A control point drawn from `m..m + k`, with `k` itself drawn from `1..50`.
fn draw_nearby(m: i32) -> (c: i32)
    requires
        m <= i32::MAX - 49,
    ensures
        m <= c < m + 49,
{
    let k = random_between(1, 50);
    random_between(m, m + k)
}

/// Draws the random choices of a smooth click at given coordinates: with
/// `minimize`, many steps and a control point towards the far corner of the
/// screen; without, few steps and a control point close to the mouse.
pub fn draw_direct_click(
    minimize: bool,
    mouse_x: i32,
    mouse_y: i32,
    screen_w: i32,
    screen_h: i32,
) -> (d: ClickDraw)
    requires
        minimize ==> mouse_x < screen_w && mouse_y < screen_h,
        !minimize ==> mouse_x <= i32::MAX - 49 && mouse_y <= i32::MAX - 49,
    ensures
        direct_draw_ok(d, minimize, mouse_x, mouse_y, screen_w, screen_h),
{
    if minimize {
        let steps = random_between(50, 100);
        let ctrl_x = random_between(mouse_x, screen_w);
        let ctrl_y = random_between(mouse_y, screen_h);
        let first = random_between(50, 70);
        let second = random_between(500, 1000);
        ClickDraw {
            salt: 0,
            steps: steps as usize,
            ctrl_x,
            ctrl_y,
            first_pause: first as u64,
            second_pause: second as u64,
        }
    } else {
        let steps = random_between(20, 30);
        let ctrl_x = draw_nearby(mouse_x);
        let ctrl_y = draw_nearby(mouse_y);
        let first = random_between(100, 200);
        ClickDraw {
            salt: 0,
            steps: steps as usize,
            ctrl_x,
            ctrl_y,
            first_pause: first as u64,
            second_pause: 0,
        }
    }
}

/// The gestures of a click at `(x, y)`.
pub open spec fn direct_click_plan(
    x: i32,
    y: i32,
    smooth: bool,
    minimize: bool,
    offset_x: i32,
    offset_y: i32,
    button: MouseButton,
    mouse_x: i32,
    mouse_y: i32,
    d: ClickDraw,
) -> Option<Seq<Gesture>> {
    if !smooth {
        Some(seq![Gesture::Jump { x, y }, Gesture::Click(button)])
    } else if !in_i32(x + offset_x) || !in_i32(y + offset_y) {
        None
    } else {
        let glide = Gesture::Glide(
            Path {
                from_x: mouse_x,
                from_y: mouse_y,
                to_x: (x + offset_x) as i32,
                to_y: (y + offset_y) as i32,
                ctrl_x: d.ctrl_x,
                ctrl_y: d.ctrl_y,
                steps: d.steps,
            },
        );
        if minimize {
            Some(
                seq![
                    Gesture::Press(KeyStroke::ShowDesktop),
                    glide,
                    Gesture::Press(KeyStroke::AltTabDown),
                    Gesture::Pause(d.first_pause),
                    Gesture::Press(KeyStroke::AltTabUp),
                    Gesture::Pause(d.second_pause),
                    Gesture::Click(button),
                ],
            )
        } else {
            Some(
                seq![
                    Gesture::Press(KeyStroke::TapMeta),
                    glide,
                    Gesture::Press(KeyStroke::TapMeta),
                    Gesture::Pause(d.first_pause),
                    Gesture::Click(button),
                ],
            )
        }
    }
}

/// A direct click moves to its point (moved by the offsets where it is
/// smooth) and ends with exactly one click of its button.
pub proof fn lemma_direct_click_clicks_once(
    x: i32,
    y: i32,
    smooth: bool,
    minimize: bool,
    offset_x: i32,
    offset_y: i32,
    button: MouseButton,
    mouse_x: i32,
    mouse_y: i32,
    d: ClickDraw,
)
    ensures
        direct_click_plan(x, y, smooth, minimize, offset_x, offset_y, button, mouse_x, mouse_y, d) matches Some(g)
            ==> {
            &&& g.len() >= 2
            &&& g.last() == Gesture::Click(button)
            &&& forall|i: int| 0 <= i < g.len() - 1 ==> !(#[trigger] g[i] is Click)
            &&& !smooth ==> g[0] == (Gesture::Jump { x, y })
            &&& smooth ==> (g[1] matches Gesture::Glide(p) && p.to_x == x + offset_x && p.to_y == y
                + offset_y)
        },
{
    let r = direct_click_plan(x, y, smooth, minimize, offset_x, offset_y, button, mouse_x, mouse_y, d);
    if let Some(g) = r {
        assert forall|i: int| 0 <= i < g.len() - 1 implies !(#[trigger] g[i] is Click) by {
            if !smooth {
            } else if minimize {
                assert(0 <= i < 6);
            } else {
                assert(0 <= i < 4);
            }
        }
    }
}

/// Plans a click at given coordinates. Without `smooth`: jump there, with
/// no offset, and click `button`. With `smooth`: leave the game (minimising
/// it with `minimize`), glide from the mouse to the point moved by the
/// offsets, then come back to the game (switching back to it with
/// `minimize`, tapping the Windows key without), pause and click `button`.
fn plan_direct_click(
    x: i32,
    y: i32,
    smooth: bool,
    minimize: bool,
    offset_x: i32,
    offset_y: i32,
    button: MouseButton,
    mouse_x: i32,
    mouse_y: i32,
    d: ClickDraw,
) -> (r: Result<Vec<Gesture>, CommandError>)
    ensures
        match direct_click_plan(
            x,
            y,
            smooth,
            minimize,
            offset_x,
            offset_y,
            button,
            mouse_x,
            mouse_y,
            d,
        ) {
            None => r matches Err(CommandError::Overflow),
            Some(g) => r matches Ok(v) && v@ == g,
        },
{
    if !smooth {
        return Ok(vec![Gesture::Jump { x, y }, Gesture::Click(button)]);
    }
    let tx = x.checked_add(offset_x);
    let ty = y.checked_add(offset_y);
    match (tx, ty) {
        (Some(tx), Some(ty)) => {
            let glide = Gesture::Glide(
                Path {
                    from_x: mouse_x,
                    from_y: mouse_y,
                    to_x: tx,
                    to_y: ty,
                    ctrl_x: d.ctrl_x,
                    ctrl_y: d.ctrl_y,
                    steps: d.steps,
                },
            );
            if minimize {
                Ok(
                    vec![
                        Gesture::Press(KeyStroke::ShowDesktop),
                        glide,
                        Gesture::Press(KeyStroke::AltTabDown),
                        Gesture::Pause(d.first_pause),
                        Gesture::Press(KeyStroke::AltTabUp),
                        Gesture::Pause(d.second_pause),
                        Gesture::Click(button),
                    ],
                )
            } else {
                Ok(
                    vec![
                        Gesture::Press(KeyStroke::TapMeta),
                        glide,
                        Gesture::Press(KeyStroke::TapMeta),
                        Gesture::Pause(d.first_pause),
                        Gesture::Click(button),
                    ],
                )
            }
        },
        _ => Err(CommandError::Overflow),
    }
}

/// Plans a click at given coordinates, left-clicking where it jumps there
/// (see `plan_direct_click`).
pub fn click_buton_direct(
    x: i32,
    y: i32,
    smooth: bool,
    minimize: bool,
    offset_x: i32,
    offset_y: i32,
    mouse_x: i32,
    mouse_y: i32,
    d: ClickDraw,
) -> (r: Result<Vec<Gesture>, CommandError>)
    ensures
        match direct_click_plan(x, y, smooth, minimize, offset_x, offset_y, MouseButton::Left, mouse_x, mouse_y, d) {
            None => r matches Err(CommandError::Overflow),
            Some(g) => r matches Ok(v) && v@ == g,
        },
{
    plan_direct_click(x, y, smooth, minimize, offset_x, offset_y, MouseButton::Left, mouse_x, mouse_y, d)
}

/// Plans a click at given coordinates, right-clicking where it jumps there
/// (see `plan_direct_click`).
pub fn click_buton_right_direct(
    x: i32,
    y: i32,
    smooth: bool,
    minimize: bool,
    offset_x: i32,
    offset_y: i32,
    mouse_x: i32,
    mouse_y: i32,
    d: ClickDraw,
) -> (r: Result<Vec<Gesture>, CommandError>)
    ensures
        match direct_click_plan(x, y, smooth, minimize, offset_x, offset_y, MouseButton::Right, mouse_x, mouse_y, d) {
            None => r matches Err(CommandError::Overflow),
            Some(g) => r matches Ok(v) && v@ == g,
        },
{
    plan_direct_click(x, y, smooth, minimize, offset_x, offset_y, MouseButton::Right, mouse_x, mouse_y, d)
}

/// The ranges that the choices of a quick move come from.
pub open spec fn fast_draw_ok(d: ClickDraw, mouse_x: i32, mouse_y: i32) -> bool {
    &&& 10 <= d.steps < 20
    &&& mouse_x <= d.ctrl_x < mouse_x + 49
    &&& mouse_y <= d.ctrl_y < mouse_y + 49
}

/// Draws the random choices of a quick move: few steps, and a control point
/// close to the mouse.
pub fn draw_fast_move(mouse_x: i32, mouse_y: i32) -> (d: ClickDraw)
    requires
        mouse_x <= i32::MAX - 49,
        mouse_y <= i32::MAX - 49,
    ensures
        fast_draw_ok(d, mouse_x, mouse_y),
{
    let steps = random_between(10, 20);
    let ctrl_x = draw_nearby(mouse_x);
    let ctrl_y = draw_nearby(mouse_y);
    ClickDraw { salt: 0, steps: steps as usize, ctrl_x, ctrl_y, first_pause: 0, second_pause: 0 }
}

/// Plans a quick move to `(x, y)`: tap the Windows key, glide there from the
/// mouse, tap the Windows key again.
pub fn move_to_location_fast(x: i32, y: i32, mouse_x: i32, mouse_y: i32, d: ClickDraw) -> (v: Vec<
    Gesture,
>)
    ensures
        v@ == seq![
            Gesture::Press(KeyStroke::TapMeta),
            Gesture::Glide(
                Path {
                    from_x: mouse_x,
                    from_y: mouse_y,
                    to_x: x,
                    to_y: y,
                    ctrl_x: d.ctrl_x,
                    ctrl_y: d.ctrl_y,
                    steps: d.steps,
                },
            ),
            Gesture::Press(KeyStroke::TapMeta),
        ],
{
    vec![
        Gesture::Press(KeyStroke::TapMeta),
        Gesture::Glide(
            Path {
                from_x: mouse_x,
                from_y: mouse_y,
                to_x: x,
                to_y: y,
                ctrl_x: d.ctrl_x,
                ctrl_y: d.ctrl_y,
                steps: d.steps,
            },
        ),
        Gesture::Press(KeyStroke::TapMeta),
    ]
}

/// What the bot does for one line of a detector's output.
#[derive(PartialEq, Eq, Structural, Clone, Copy, Debug)]
pub enum LineStep {
    /// Nothing (a line that holds no region).
    Pass,
    /// Move away from the items to this point and left-click there, so that
    /// no item stays selected.
    Away { x: i32, y: i32 },
    /// Act on the region whose salted centre is this point.
    Target { x: i32, y: i32 },
}

/// Whether `s` is what the bot does for the finding `f`.
pub open spec fn step_fits(f: Finding, s: LineStep) -> bool {
    match f {
        Finding::Missing => s matches LineStep::Away { x, y } && 25 <= x < 50 && 200 <= y < 300,
        Finding::Found(r) => s matches LineStep::Target { x, y } && near_center(r, x, y),
        Finding::Ignored => s == LineStep::Pass,
        Finding::Malformed => false,
    }
}

/// Whether the bot gives up at the finding `f`.
pub open spec fn halts_at(f: Finding) -> bool {
    f is Malformed || (f matches Finding::Found(r) && aim_may_overflow(r))
}

/// Draws a point away from the items: `x` in `25..50`, `y` in `200..300`.
pub fn draw_away_point() -> (p: (i32, i32))
    ensures
        25 <= p.0 < 50,
        200 <= p.1 < 300,
{
    let x = random_between(25, 50);
    let y = random_between(200, 300);
    (x, y)
}

/// What the bot does for each line of a detector's output, in order, up to
/// the first line at which it gives up; the flag tells whether it got
/// through every line.
pub fn plan_lines(found: &Vec<Finding>) -> (r: (Vec<LineStep>, bool))
    ensures
        r.0@.len() <= found@.len(),
        r.1 <==> r.0@.len() == found@.len(),
        forall|i: int| 0 <= i < r.0@.len() ==> step_fits(found@[i], #[trigger] r.0@[i]),
        !r.1 ==> halts_at(found@[r.0@.len() as int]),
{
    let mut steps: Vec<LineStep> = Vec::new();
    let mut k: usize = 0;
    while k < found.len()
        invariant
            k <= found@.len(),
            steps@.len() == k,
            forall|i: int| 0 <= i < k ==> step_fits(found@[i], #[trigger] steps@[i]),
        decreases found@.len() - k,
    {
        match found[k] {
            Finding::Missing => {
                let (x, y) = draw_away_point();
                steps.push(LineStep::Away { x, y });
            },
            Finding::Found(r) => {
                match aim_at_region(r) {
                    Some((x, y)) => steps.push(LineStep::Target { x, y }),
                    None => {
                        return (steps, false);
                    },
                }
            },
            Finding::Ignored => steps.push(LineStep::Pass),
            Finding::Malformed => {
                return (steps, false);
            },
        }
        k = k + 1;
    }
    (steps, true)
}

/// Whether `s` is what the bot does for the finding `f` where it only
/// clears misses: moves away from the items on a miss, nothing otherwise.
pub open spec fn miss_step_fits(f: Finding, s: LineStep) -> bool {
    match f {
        Finding::Missing => s matches LineStep::Away { x, y } && 25 <= x < 50 && 200 <= y < 300,
        _ => s == LineStep::Pass,
    }
}

/// What the bot does for each line of a detector's output where it only
/// clears misses: every line is gone through, and none makes it give up.
pub fn plan_misses(found: &Vec<Finding>) -> (r: Vec<LineStep>)
    ensures
        r@.len() == found@.len(),
        forall|i: int| 0 <= i < r@.len() ==> miss_step_fits(found@[i], #[trigger] r@[i]),
{
    let mut steps: Vec<LineStep> = Vec::new();
    let mut k: usize = 0;
    while k < found.len()
        invariant
            k <= found@.len(),
            steps@.len() == k,
            forall|i: int| 0 <= i < k ==> miss_step_fits(found@[i], #[trigger] steps@[i]),
        decreases found@.len() - k,
    {
        match found[k] {
            Finding::Missing => {
                let (x, y) = draw_away_point();
                steps.push(LineStep::Away { x, y });
            },
            _ => steps.push(LineStep::Pass),
        }
        k = k + 1;
    }
    steps
}

} // verus!
