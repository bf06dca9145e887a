use ffmtrans::overlay::{drawtext_filter, graph_args, u32_to_dec};
use ffmtrans::time::TimeBase;

#[test]
fn decimal_rendering_is_exact() {
    assert_eq!(u32_to_dec(0).as_str(), "0");
    assert_eq!(u32_to_dec(7).as_str(), "7");
    assert_eq!(u32_to_dec(30).as_str(), "30");
    assert_eq!(u32_to_dec(1280).as_str(), "1280");
    assert_eq!(u32_to_dec(u32::MAX).as_str(), "4294967295");
}

#[test]
fn graph_args_describe_the_decoded_frames() {
    let s = graph_args(1280, 800, 0, TimeBase::new(1, 30), 1, 1);
    assert_eq!(
        s.as_str(),
        "video_size=1280x800:pix_fmt=0:time_base=1/30:pixel_aspect=1/1",
    );
}

#[test]
fn drawtext_renders_the_requested_text_literally() {
    let s = drawtext_filter("station clock");
    assert_eq!(
        s.as_str(),
        "drawtext=fontcolor=red:fontsize=20:x=0:y=0:text=station clock",
    );
    let s = drawtext_filter("");
    assert_eq!(s.as_str(), "drawtext=fontcolor=red:fontsize=20:x=0:y=0:text=");
}
