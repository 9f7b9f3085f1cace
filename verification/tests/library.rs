use kurumi::cli::Cli;
use kurumi::constants::{APP_NAME, SCALE_MAX_PERCENT, SCALE_MIN_PERCENT};
use kurumi::controls::{
    control_escape_pop, control_escape_push, edge_label, key_signal, on_key_event, scroll_response,
    window_exit_result, ControlSignal, Edge, Key, ScrollResponse,
};
use kurumi::error::{gtk_mismatching_error, Error, ErrorKind};
use kurumi::mode::Mode;
use kurumi::text::{append_decimal, decimal_string};
use kurumi::util::{
    _page_info, convert_to_url, format_scale_status, patch_title, CanonicalPath, PageFitKind,
};

#[test]
fn error_gives_back_kind_and_message() {
    let e = Error::new(ErrorKind::File, "no such file");
    assert_eq!(*e.kind(), ErrorKind::File);
    assert_eq!(e.message(), "no such file");
}

#[test]
fn error_debug_text() {
    let e = Error::new(ErrorKind::UrlParsing, "empty host");
    assert_eq!(e.to_debug_string(), "[error] (UrlParsing) empty host");
    let e = Error::new(ErrorKind::Window, "");
    assert_eq!(e.to_debug_string(), "[error] (Window) ");
    assert_eq!(ErrorKind::File.name(), "File");
}

#[test]
fn mismatching_error_text() {
    assert_eq!(
        gtk_mismatching_error("kurumi window"),
        "GTK object mismatched: expecting a `kurumi window`"
    );
    assert_eq!(gtk_mismatching_error(""), "GTK object mismatched: expecting a ``");
}

#[test]
fn mode_names() {
    let m = Mode::default();
    assert_eq!(m, Mode::Normal);
    assert_eq!(m.as_str(), "normal");
    assert_eq!(m.to_string(), "normal");
}

#[test]
fn cli_holds_arguments() {
    let cli = Cli { file_path: Some("a.pdf".to_string()), password: None };
    assert_eq!(cli.file_path.as_deref(), Some("a.pdf"));
    assert!(cli.password.is_none());
}

#[test]
fn titles() {
    assert_eq!(APP_NAME, "kurumi");
    assert_eq!(patch_title(Some("paper.pdf")), "paper.pdf \u{2014} kurumi");
    assert_eq!(patch_title(None), "kurumi");
    assert_eq!(patch_title(Some("")), " \u{2014} kurumi");
}

#[test]
fn decimal_texts() {
    assert_eq!(decimal_string(0), "0");
    assert_eq!(decimal_string(7), "7");
    assert_eq!(decimal_string(10), "10");
    assert_eq!(decimal_string(-42), "-42");
    assert_eq!(decimal_string(i32::MAX), "2147483647");
    assert_eq!(decimal_string(i32::MIN), "-2147483648");
    let mut s = String::from("x=");
    append_decimal(&mut s, 905);
    assert_eq!(s, "x=905");
}

#[test]
fn page_info_texts() {
    assert_eq!(_page_info(3, 10), "3/10");
    assert_eq!(_page_info(0, 0), "0/0");
    assert_eq!(_page_info(-1, 100), "-1/100");
}

#[test]
fn scale_status_texts() {
    assert_eq!(format_scale_status(100, PageFitKind::NoFit), "");
    assert_eq!(format_scale_status(150, PageFitKind::NoFit), "Zoom: 150%");
    assert_eq!(format_scale_status(SCALE_MAX_PERCENT, PageFitKind::NoFit), "Zoom: 500% (max)");
    assert_eq!(format_scale_status(SCALE_MAX_PERCENT + 1, PageFitKind::NoFit), "Zoom: 501% (max)");
    assert_eq!(format_scale_status(SCALE_MIN_PERCENT, PageFitKind::NoFit), "Zoom: 10% (min)");
    assert_eq!(format_scale_status(-3, PageFitKind::NoFit), "Zoom: -3% (min)");
    assert_eq!(format_scale_status(120, PageFitKind::Width(80)), "Zoom: 80% (fit width)");
    assert_eq!(format_scale_status(130, PageFitKind::Page(95)), "Zoom: 95% (fit page)");
    assert_eq!(format_scale_status(600, PageFitKind::Page(90)), "Zoom: 90% (max,fit page)");
    assert_eq!(format_scale_status(5, PageFitKind::Width(40)), "Zoom: 40% (min,fit width)");
    assert_eq!(format_scale_status(600, PageFitKind::Page(100)), "");
}

#[test]
fn absolute_urls_are_kept() {
    let r = convert_to_url("https://Example.net", &CanonicalPath::NotUnicode);
    assert_eq!(r.ok().as_deref(), Some("https://example.net/"));
    let r = convert_to_url("file:///tmp/a.pdf", &CanonicalPath::Failed("gone".to_string()));
    assert_eq!(r.ok().as_deref(), Some("file:///tmp/a.pdf"));
}

#[test]
fn relative_paths_become_file_urls() {
    let r = convert_to_url("docs/a b.pdf", &CanonicalPath::Resolved("/home/u/docs/a b.pdf".to_string()));
    assert_eq!(r.ok().as_deref(), Some("file:///home/u/docs/a%20b.pdf"));
}

#[test]
fn relative_path_errors() {
    let e = convert_to_url("a.pdf", &CanonicalPath::NotUnicode).err().unwrap();
    assert_eq!(*e.kind(), ErrorKind::File);
    assert_eq!(e.message(), "Path string invalid");

    let e = convert_to_url("a.pdf", &CanonicalPath::Failed("No such file or directory (os error 2)".to_string()))
        .err()
        .unwrap();
    assert_eq!(*e.kind(), ErrorKind::File);
    assert_eq!(e.message(), "No such file or directory (os error 2)");

    let e = convert_to_url("a.pdf", &CanonicalPath::Resolved("[::1".to_string())).err().unwrap();
    assert_eq!(*e.kind(), ErrorKind::UrlParsing);
    assert_eq!(e.message(), "invalid IPv6 address");
}

#[test]
fn malformed_urls_are_errors() {
    let e = convert_to_url("http://[::1", &CanonicalPath::Resolved("/x".to_string())).err().unwrap();
    assert_eq!(*e.kind(), ErrorKind::UrlParsing);
    assert_eq!(e.message(), "invalid IPv6 address");
    let e = convert_to_url("http://", &CanonicalPath::Resolved("/x".to_string())).err().unwrap();
    assert_eq!(*e.kind(), ErrorKind::UrlParsing);
    assert_eq!(e.message(), "empty host");
}

#[test]
fn control_escape_depth() {
    assert_eq!(control_escape_push(0), 1);
    assert_eq!(control_escape_pop(1), 0);
    assert_eq!(control_escape_pop(0), 0);
    assert_eq!(control_escape_pop(control_escape_push(41)), 41);
}

#[test]
fn key_signals() {
    assert_eq!(key_signal(Key::ControlLeft, true), Some(ControlSignal::Push));
    assert_eq!(key_signal(Key::ControlRight, false), Some(ControlSignal::Pop));
    assert_eq!(key_signal(Key::Other, true), None);
    assert_eq!(key_signal(Key::Other, false), None);
}

#[test]
fn key_events_count_held_controls() {
    let mut depth = 0;
    depth = on_key_event(depth, Key::ControlLeft, true);
    depth = on_key_event(depth, Key::ControlRight, true);
    depth = on_key_event(depth, Key::Other, true);
    assert_eq!(depth, 2);
    assert_eq!(scroll_response(depth), ScrollResponse::Zoom);
    depth = on_key_event(depth, Key::ControlLeft, false);
    depth = on_key_event(depth, Key::ControlRight, false);
    assert_eq!(depth, 0);
    assert_eq!(scroll_response(depth), ScrollResponse::Proceed);
    depth = on_key_event(depth, Key::ControlRight, false);
    assert_eq!(depth, 0);
}

#[test]
fn edge_labels() {
    assert_eq!(edge_label(Edge::Top), Some("Top"));
    assert_eq!(edge_label(Edge::Bottom), Some("Bot"));
    assert_eq!(edge_label(Edge::Left), None);
    assert_eq!(edge_label(Edge::Right), None);
}

#[test]
fn window_exit_codes() {
    assert!(window_exit_result(0).is_ok());
    let e = window_exit_result(1).err().unwrap();
    assert_eq!(*e.kind(), ErrorKind::Window);
    assert_eq!(e.message(), "Window exited with code 1.");
    assert!(window_exit_result(255).is_err());
}
