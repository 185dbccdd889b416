use async_cli::output::OutputStyle;
use async_cli::shutdown::KillSwitch;

#[test]
fn plain_style_adds_no_colour() {
    let s = OutputStyle::new(false);
    assert_eq!(s.println("hi"), "hi\n");
    assert_eq!(s.print("hi"), "hi");
    assert_eq!(s.errln("bad"), "bad\n");
    assert_eq!(s.err("bad"), "bad");
    assert_eq!(s.warnln("careful"), "careful\n");
    assert_eq!(s.warn("careful"), "careful");
}

#[test]
fn coloured_style_wraps_errors_and_warnings() {
    let s = OutputStyle::new(true);
    assert_eq!(s.println("hi"), "hi\n");
    assert_eq!(s.print("hi"), "hi");
    assert_eq!(s.errln("bad"), "\x1b[31mbad\x1b[0m\n");
    assert_eq!(s.err("bad"), "\x1b[31mbad\x1b[0m");
    assert_eq!(s.warnln("careful"), "\x1b[33mcareful\x1b[0m\n");
    assert_eq!(s.warn("careful"), "\x1b[33mcareful\x1b[0m");
}

#[test]
fn kill_hands_out_handles_once() {
    let mut k = KillSwitch::new(7u32);
    assert!(!k.is_signalled());
    assert_eq!(k.kill(), Some(7));
    assert!(k.is_signalled());
    assert_eq!(k.kill(), None);
    assert_eq!(k.kill(), None);
    assert!(k.is_signalled());
}
