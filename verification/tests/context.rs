use probriquegl::context::{spoof_context_version, version_text, VersionSpoof};
use probriquegl::gl_def::{GLX_CONTEXT_MAJOR_VERSION_ARB, GLX_CONTEXT_MINOR_VERSION_ARB, GL_VERSION};

#[test]
fn attribs_are_lowered_to_version_three() {
    let mut attribs = vec![
        GLX_CONTEXT_MAJOR_VERSION_ARB, 4, GLX_CONTEXT_MINOR_VERSION_ARB, 5, 0x2094, 1, 0,
    ];
    assert_eq!(spoof_context_version(&mut attribs), (4, 5));
    assert_eq!(
        attribs,
        vec![GLX_CONTEXT_MAJOR_VERSION_ARB, 3, GLX_CONTEXT_MINOR_VERSION_ARB, 3, 0x2094, 1, 0]
    );
}

#[test]
fn scan_stops_at_terminator() {
    let mut attribs = vec![0x2094, 1, GLX_CONTEXT_MINOR_VERSION_ARB, 2, 0, 0, GLX_CONTEXT_MAJOR_VERSION_ARB, 4];
    assert_eq!(spoof_context_version(&mut attribs), (0, 2));
    assert_eq!(
        attribs,
        vec![0x2094, 1, GLX_CONTEXT_MINOR_VERSION_ARB, 3, 0, 0, GLX_CONTEXT_MAJOR_VERSION_ARB, 4]
    );
}

#[test]
fn scan_stops_once_both_versions_are_known() {
    let mut attribs = vec![
        GLX_CONTEXT_MINOR_VERSION_ARB, 1, GLX_CONTEXT_MAJOR_VERSION_ARB, 2,
        GLX_CONTEXT_MAJOR_VERSION_ARB, 9, 0,
    ];
    assert_eq!(spoof_context_version(&mut attribs), (2, 1));
    assert_eq!(attribs[5], 9);
}

#[test]
fn scan_stops_at_end_of_list() {
    let mut attribs = vec![GLX_CONTEXT_MAJOR_VERSION_ARB, 4, GLX_CONTEXT_MINOR_VERSION_ARB];
    assert_eq!(spoof_context_version(&mut attribs), (4, 0));
    assert_eq!(attribs, vec![GLX_CONTEXT_MAJOR_VERSION_ARB, 3, GLX_CONTEXT_MINOR_VERSION_ARB]);
    let mut empty: Vec<i32> = Vec::new();
    assert_eq!(spoof_context_version(&mut empty), (0, 0));
}

#[test]
fn version_text_is_formatted() {
    assert_eq!(version_text(4, 6), b"4.6 ProbriqueGL 0.0.1".to_vec());
    assert_eq!(version_text(-1, 10), b"-1.10 ProbriqueGL 0.0.1".to_vec());
}

#[test]
fn version_string_starts_at_four_two() {
    let spoof = VersionSpoof::new();
    assert_eq!(spoof.string_for(GL_VERSION), Some(&b"4.2"[..]));
    assert_eq!(spoof.string_for(0x1F00), None);
}

#[test]
fn requested_version_reads_back() {
    let mut spoof = VersionSpoof::new();
    spoof.report_requested(3, 3);
    assert_eq!(spoof.string_for(GL_VERSION), Some(&b"3.3 ProbriqueGL 0.0.1"[..]));
    assert_eq!(spoof.string_for(0x1F01), None);
}
