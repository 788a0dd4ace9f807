//! Tests of the pipeline setup outcomes and of the displayed-frame model.

use compositor_canvas::error::Error;
use compositor_canvas::frame::FrameBuffer;
use compositor_canvas::frame::BUFFER_SIZE;
use compositor_canvas::pipeline::compile_outcome;
use compositor_canvas::pipeline::displayed_frame;
use compositor_canvas::pipeline::link_outcome;

/// A full frame with every pixel set to the given four channel bytes.
fn uniform_frame(r: u8, g: u8, b: u8, a: u8) -> Vec<u8> {
    let mut v = Vec::with_capacity(BUFFER_SIZE);
    for i in 0..BUFFER_SIZE {
        v.push(match i % 4 {
            0 => r,
            1 => g,
            2 => b,
            _ => a,
        });
    }
    v
}

#[test]
fn successful_compile_is_ok() {
    assert!(compile_outcome(Some(true), None).is_ok());
    assert!(compile_outcome(Some(true), Some("ignored".to_owned())).is_ok());
}

#[test]
fn failed_compile_carries_the_driver_log() {
    let r = compile_outcome(Some(false), Some("syntax error in line 3".to_owned()));
    match r {
        Err(Error::ShaderCompileError(m)) => assert_eq!(m, "syntax error in line 3"),
        other => panic!("expected a shader compile error, got {:?}", other),
    }
}

#[test]
fn silent_compile_failure_gets_the_fallback_text() {
    let r = compile_outcome(None, None);
    match r {
        Err(Error::ShaderCompileError(m)) => assert_eq!(m, "Unknown error creating shader"),
        other => panic!("expected a shader compile error, got {:?}", other),
    }
}

#[test]
fn successful_link_is_ok() {
    assert!(link_outcome(Some(true), None).is_ok());
}

#[test]
fn failed_link_carries_the_driver_log() {
    let r = link_outcome(Some(false), Some("unresolved varying".to_owned()));
    match r {
        Err(Error::ProgramLinkError(m)) => assert_eq!(m, "unresolved varying"),
        other => panic!("expected a program link error, got {:?}", other),
    }
}

#[test]
fn silent_link_failure_gets_the_fallback_text() {
    let r = link_outcome(Some(false), None);
    match r {
        Err(Error::ProgramLinkError(m)) => assert_eq!(m, "Unknown error creating program object"),
        other => panic!("expected a program link error, got {:?}", other),
    }
}

#[test]
fn channel_swap_has_no_effect_on_white() {
    let fb = FrameBuffer::new();
    let shown = displayed_frame(fb.data());
    assert_eq!(shown.len(), BUFFER_SIZE);
    assert!(shown.iter().all(|&b| b == 255));
}

#[test]
fn channel_swap_has_no_effect_on_black() {
    let black = uniform_frame(0, 0, 0, 255);
    let shown = displayed_frame(&black);
    assert_eq!(shown, black);
}

#[test]
fn channel_swap_trades_red_and_blue() {
    // red=10, green=20, blue=30, alpha=255 at every pixel must be sampled as
    // red=30, green=20, blue=10, alpha=255 after the swap.
    let stored = uniform_frame(10, 20, 30, 255);
    let shown = displayed_frame(&stored);
    let expected = uniform_frame(30, 20, 10, 255);
    assert_eq!(shown, expected);
}
