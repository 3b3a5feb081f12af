//! The look of the windows: blur with a tint behind them, a dark title bar and round corners.

use vstd::prelude::*;

verus! {

/// Plain blur behind the window.
pub const ENABLE_BLUR_BEHIND: i32 = 3;

/// Tinted blur behind the window.
pub const ENABLE_ACRYLIC_BLUR_BEHIND: i32 = 4;

pub const DWMWA_USE_IMMERSIVE_DARK_MODE_BEFORE_20H1: i32 = 19;

pub const DWMWA_USE_IMMERSIVE_DARK_MODE: i32 = 20;

pub const DWMWA_WINDOW_CORNER_PREFERENCE: i32 = 33;

pub const DWMWCP_ROUND: i32 = 2;

/// How the system is asked to draw behind a window.
#[derive(Debug, Clone, Copy, PartialEq, Eq, Structural)]
pub struct AccentPolicy {
    pub accent_state: i32,
    pub accent_flags: i32,
    /// Opacity, blue, green and red, from the highest byte to the lowest.
    pub gradient_color: u32,
    pub animation_id: i32,
}

/// The red part of a colour written 0xRRGGBB.
pub open spec fn red(rgb: u32) -> int {
    rgb as int / 0x1_0000 % 0x100
}

/// The green part of a colour written 0xRRGGBB.
pub open spec fn green(rgb: u32) -> int {
    rgb as int / 0x100 % 0x100
}

/// The blue part of a colour written 0xRRGGBB.
pub open spec fn blue(rgb: u32) -> int {
    rgb as int % 0x100
}

/// A colour written 0xRRGGBB and an opacity, as 0xAABBGGRR.
pub open spec fn spec_abgr(rgb: u32, opacity: u8) -> int {
    opacity * 0x100_0000 + blue(rgb) * 0x1_0000 + green(rgb) * 0x100 + red(rgb)
}

/// A colour written 0xRRGGBB and an opacity, as 0xAABBGGRR.
pub fn abgr(rgb: u32, opacity: u8) -> (r: u32)
    ensures
        r == spec_abgr(rgb, opacity),
{
    let r: u32 = rgb / 0x1_0000 % 0x100;
    let g: u32 = rgb / 0x100 % 0x100;
    let b: u32 = rgb % 0x100;
    opacity as u32 * 0x100_0000 + b * 0x1_0000 + g * 0x100 + r
}

/// Turning the bytes round twice gives back the colour, without what lies above its 24 bits.
pub proof fn law_abgr_keeps_the_parts(rgb: u32, opacity: u8)
    ensures
        spec_abgr(rgb, opacity) / 0x100_0000 == opacity,
        blue(spec_abgr(rgb, opacity) as u32) == red(rgb),
        green(spec_abgr(rgb, opacity) as u32) == green(rgb),
        red(spec_abgr(rgb, opacity) as u32) == blue(rgb),
{
}

/// What is asked of the system for a window with a tinted blur. Nothing for no window.
pub fn acrylic_policy(window: usize, tint_rgb: u32, opacity: u8) -> (r: Option<AccentPolicy>)
    ensures
        r == (if window == 0 {
            None::<AccentPolicy>
        } else {
            Some(
                AccentPolicy {
                    accent_state: ENABLE_ACRYLIC_BLUR_BEHIND,
                    accent_flags: 2,
                    gradient_color: spec_abgr(tint_rgb, opacity) as u32,
                    animation_id: 0,
                },
            )
        }),
{
    if window == 0 {
        return None;
    }
    Some(
        AccentPolicy {
            accent_state: ENABLE_ACRYLIC_BLUR_BEHIND,
            accent_flags: 2,
            gradient_color: abgr(tint_rgb, opacity),
            animation_id: 0,
        },
    )
}

/// What is asked of the system for a window with a plain blur. Nothing for no window.
pub fn blur_policy(window: usize) -> (r: Option<AccentPolicy>)
    ensures
        r == (if window == 0 {
            None::<AccentPolicy>
        } else {
            Some(
                AccentPolicy {
                    accent_state: ENABLE_BLUR_BEHIND,
                    accent_flags: 0,
                    gradient_color: 0,
                    animation_id: 0,
                },
            )
        }),
{
    if window == 0 {
        return None;
    }
    Some(
        AccentPolicy {
            accent_state: ENABLE_BLUR_BEHIND,
            accent_flags: 0,
            gradient_color: 0,
            animation_id: 0,
        },
    )
}

/// What follows an attempt to blur behind a window.
#[derive(Debug, Clone, Copy, PartialEq, Eq, Structural)]
pub enum AfterBlur {
    /// It worked: the title bar is made dark as well.
    DarkTitleBar,
    /// The plain blur is tried.
    TryPlain,
    /// Nothing is left to try.
    GiveUp,
}

/// What follows an attempt to blur behind a window, tinted or plain.
pub fn after_blur(worked: bool, tinted: bool) -> (r: AfterBlur)
    ensures
        r == (if worked {
            AfterBlur::DarkTitleBar
        } else if tinted {
            AfterBlur::TryPlain
        } else {
            AfterBlur::GiveUp
        }),
{
    if worked {
        AfterBlur::DarkTitleBar
    } else if tinted {
        AfterBlur::TryPlain
    } else {
        AfterBlur::GiveUp
    }
}

/// One attribute of a window and its value.
#[derive(Debug, Clone, Copy, PartialEq, Eq, Structural)]
pub struct WindowAttribute {
    pub attribute: i32,
    pub value: i32,
}

/// The attribute that makes the title bar dark.
pub fn dark_mode() -> (r: WindowAttribute)
    ensures
        r == (WindowAttribute { attribute: DWMWA_USE_IMMERSIVE_DARK_MODE, value: 1 }),
{
    WindowAttribute { attribute: DWMWA_USE_IMMERSIVE_DARK_MODE, value: 1 }
}

/// The attributes that are set once the dark title bar was asked for: the older number of the
/// same attribute where the system did not know the newer one, and round corners.
pub fn after_dark_mode(failed: bool) -> (r: Vec<WindowAttribute>)
    ensures
        r@ == (if failed {
            seq![
                WindowAttribute {
                    attribute: DWMWA_USE_IMMERSIVE_DARK_MODE_BEFORE_20H1,
                    value: 1,
                },
            ]
        } else {
            Seq::<WindowAttribute>::empty()
        }).push(
            WindowAttribute { attribute: DWMWA_WINDOW_CORNER_PREFERENCE, value: DWMWCP_ROUND },
        ),
{
    let mut list: Vec<WindowAttribute> = Vec::new();
    if failed {
        list.push(
            WindowAttribute { attribute: DWMWA_USE_IMMERSIVE_DARK_MODE_BEFORE_20H1, value: 1 },
        );
    }
    list.push(
        WindowAttribute { attribute: DWMWA_WINDOW_CORNER_PREFERENCE, value: DWMWCP_ROUND },
    );
    list
}

/// A number made of four bytes has them in their places.
proof fn lemma_four_bytes(a: int, b: int, c: int, d: int)
    requires
        0 <= a < 0x100,
        0 <= b < 0x100,
        0 <= c < 0x100,
        0 <= d < 0x100,
    ensures
        ({
            let x = a * 0x100_0000 + b * 0x1_0000 + c * 0x100 + d;
            &&& 0 <= x < 0x1_0000_0000
            &&& x / 0x100_0000 == a
            &&& x / 0x1_0000 % 0x100 == b
            &&& x / 0x100 % 0x100 == c
            &&& x % 0x100 == d
        }),
{
    let x = a * 0x100_0000 + b * 0x1_0000 + c * 0x100 + d;
    assert(x / 0x1_0000 == a * 0x100 + b);
    assert(x / 0x100 == a * 0x1_0000 + b * 0x100 + c);
}

/// A window is asked to be blurred behind where there is one: in its tint with the tinted blur,
/// fully or not as the opacity says, and without a colour with the plain one.
pub proof fn law_blur_has_its_tint(
    window: usize,
    rgb: u32,
    opacity: u8,
    tinted: Option<AccentPolicy>,
    plain: Option<AccentPolicy>,
)
    requires
        call_ensures(acrylic_policy, (window, rgb, opacity), tinted),
        call_ensures(blur_policy, (window,), plain),
    ensures
        tinted is Some <==> window != 0,
        plain is Some <==> window != 0,
        window != 0 ==> {
            let t = tinted->0;
            let p = plain->0;
            let color = t.gradient_color as int;
            &&& t.accent_state == 4 && p.accent_state == 3
            &&& t.accent_flags == 2 && p.accent_flags == 0
            &&& color / 0x100_0000 == opacity
            &&& color / 0x1_0000 % 0x100 == rgb as int % 0x100
            &&& color / 0x100 % 0x100 == rgb as int / 0x100 % 0x100
            &&& color % 0x100 == rgb as int / 0x1_0000 % 0x100
            &&& p.gradient_color == 0
            &&& t.animation_id == 0 && p.animation_id == 0
        },
{
    lemma_four_bytes(opacity as int, blue(rgb), green(rgb), red(rgb));
}

/// Two attempts at most are made to blur: where the first, with a tint, fails, a second one
/// without follows, and none after that. Where one works the title bar is made dark.
pub proof fn law_plain_blur_is_the_last_try(
    first_worked: bool,
    second_worked: bool,
    first: AfterBlur,
    second: AfterBlur,
)
    requires
        call_ensures(after_blur, (first_worked, true), first),
        call_ensures(after_blur, (second_worked, false), second),
    ensures
        first_worked <==> first is DarkTitleBar,
        !first_worked <==> first is TryPlain,
        second_worked <==> second is DarkTitleBar,
        !second_worked <==> second is GiveUp,
{
}

/// The title bar is made dark by the newer number of the attribute, or where that fails by the
/// older one; round corners are asked for in either case, and last.
pub proof fn law_title_bar_is_dark_on_every_system(
    dark: WindowAttribute,
    failed: bool,
    rest: Vec<WindowAttribute>,
)
    requires
        call_ensures(dark_mode, (), dark),
        call_ensures(after_dark_mode, (failed,), rest),
    ensures
        dark.attribute == 20 && dark.value == 1,
        failed <==> rest@.len() == 2,
        !failed <==> rest@.len() == 1,
        failed ==> rest@[0].attribute == 19 && rest@[0].value == dark.value,
        rest@.last().attribute == 33 && rest@.last().value == 2,
{
}

} // verus!
