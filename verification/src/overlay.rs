//! Overlay-transform setup strings.
//!
//! The overlay stage is a single-input, single-output graph whose source pad
//! must be told the frame geometry and timing, and whose text stage renders
//! the requested overlay. Both are configured by strings; building them from
//! the session's descriptors is pipeline logic and is verified here, down to
//! the decimal rendering of each number.

use crate::time::TimeBase;
use vstd::prelude::*;
use vstd::string::StringExecFns;

verus! {

/// The decimal digit character for `d` (a single digit).
pub open spec fn digit_char(d: nat) -> char {
    if d == 0 {
        '0'
    } else if d == 1 {
        '1'
    } else if d == 2 {
        '2'
    } else if d == 3 {
        '3'
    } else if d == 4 {
        '4'
    } else if d == 5 {
        '5'
    } else if d == 6 {
        '6'
    } else if d == 7 {
        '7'
    } else if d == 8 {
        '8'
    } else {
        '9'
    }
}

/// The decimal rendering of `n`, most significant digit first, no sign and no
/// leading zeros (zero itself is "0").
pub open spec fn dec_digits(n: nat) -> Seq<char>
    decreases n,
{
    if n < 10 {
        seq![digit_char(n)]
    } else {
        dec_digits(n / 10) + seq![digit_char(n % 10)]
    }
}

fn digit_str(d: u32) -> (r: &'static str)
    requires
        d < 10,
    ensures
        r@ == seq![digit_char(d as nat)],
{
    if d == 0 {
        proof {
            reveal_strlit("0");
        }
        let s = "0";
        proof {
            assert(s@ =~= seq![digit_char(d as nat)]);
        }
        s
    } else if d == 1 {
        proof {
            reveal_strlit("1");
        }
        let s = "1";
        proof {
            assert(s@ =~= seq![digit_char(d as nat)]);
        }
        s
    } else if d == 2 {
        proof {
            reveal_strlit("2");
        }
        let s = "2";
        proof {
            assert(s@ =~= seq![digit_char(d as nat)]);
        }
        s
    } else if d == 3 {
        proof {
            reveal_strlit("3");
        }
        let s = "3";
        proof {
            assert(s@ =~= seq![digit_char(d as nat)]);
        }
        s
    } else if d == 4 {
        proof {
            reveal_strlit("4");
        }
        let s = "4";
        proof {
            assert(s@ =~= seq![digit_char(d as nat)]);
        }
        s
    } else if d == 5 {
        proof {
            reveal_strlit("5");
        }
        let s = "5";
        proof {
            assert(s@ =~= seq![digit_char(d as nat)]);
        }
        s
    } else if d == 6 {
        proof {
            reveal_strlit("6");
        }
        let s = "6";
        proof {
            assert(s@ =~= seq![digit_char(d as nat)]);
        }
        s
    } else if d == 7 {
        proof {
            reveal_strlit("7");
        }
        let s = "7";
        proof {
            assert(s@ =~= seq![digit_char(d as nat)]);
        }
        s
    } else if d == 8 {
        proof {
            reveal_strlit("8");
        }
        let s = "8";
        proof {
            assert(s@ =~= seq![digit_char(d as nat)]);
        }
        s
    } else {
        proof {
            reveal_strlit("9");
        }
        let s = "9";
        proof {
            assert(s@ =~= seq![digit_char(d as nat)]);
        }
        s
    }
}

/// Renders `n` in decimal.
pub fn u32_to_dec(n: u32) -> (r: String)
    ensures
        r@ == dec_digits(n as nat),
    decreases n,
{
    let d = n % 10;
    let ds = digit_str(d);
    if n < 10 {
        let r = ds.to_owned();
        proof {
            assert(r@ =~= dec_digits(n as nat));
        }
        r
    } else {
        let mut r = u32_to_dec(n / 10);
        r.append(ds);
        proof {
            assert(r@ =~= dec_digits(n as nat));
        }
        r
    }
}

/// The source-pad configuration for the overlay graph, describing the frames
/// the decoder will hand it.
pub open spec fn graph_args_spec(
    width: u32,
    height: u32,
    pix_fmt: u32,
    tb: TimeBase,
    aspect_num: u32,
    aspect_den: u32,
) -> Seq<char> {
    ("video_size=")@ + dec_digits(width as nat) + ("x")@ + dec_digits(height as nat) + (
    ":pix_fmt=")@ + dec_digits(pix_fmt as nat) + (":time_base=")@ + dec_digits(tb.num as nat) + (
    "/")@ + dec_digits(tb.den as nat) + (":pixel_aspect=")@ + dec_digits(aspect_num as nat) + (
    "/")@ + dec_digits(aspect_den as nat)
}

/// Builds the source-pad configuration string.
pub fn graph_args(
    width: u32,
    height: u32,
    pix_fmt: u32,
    tb: TimeBase,
    aspect_num: u32,
    aspect_den: u32,
) -> (r: String)
    ensures
        r@ == graph_args_spec(width, height, pix_fmt, tb, aspect_num, aspect_den),
{
    let mut r = ("video_size=").to_owned();
    r.append(u32_to_dec(width).as_str());
    r.append("x");
    r.append(u32_to_dec(height).as_str());
    r.append(":pix_fmt=");
    r.append(u32_to_dec(pix_fmt).as_str());
    r.append(":time_base=");
    r.append(u32_to_dec(tb.num).as_str());
    r.append("/");
    r.append(u32_to_dec(tb.den).as_str());
    r.append(":pixel_aspect=");
    r.append(u32_to_dec(aspect_num).as_str());
    r.append("/");
    r.append(u32_to_dec(aspect_den).as_str());
    proof {
        assert(r@ =~= graph_args_spec(width, height, pix_fmt, tb, aspect_num, aspect_den));
    }
    r
}

/// The text stage's description: the fixed style, then the requested overlay
/// text, rendered literally.
pub open spec fn drawtext_spec(text: Seq<char>) -> Seq<char> {
    ("drawtext=fontcolor=red:fontsize=20:x=0:y=0:text=")@ + text
}

/// Builds the text-stage description for the requested overlay text.
pub fn drawtext_filter(text: &str) -> (r: String)
    ensures
        r@ == drawtext_spec(text@),
{
    let mut r = ("drawtext=fontcolor=red:fontsize=20:x=0:y=0:text=").to_owned();
    r.append(text);
    r
}

} // verus!
