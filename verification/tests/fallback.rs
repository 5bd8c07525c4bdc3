use ffpipeline::fallback::error_card_subtitle;

#[test]
fn error_card_subtitle_scales_with_height_and_escapes_newlines() {
    let ass = error_card_subtitle("line one\nline two", 1920, 1080);

    assert!(ass.contains("PlayResX: 1920\nPlayResY: 1080\n"));
    assert!(ass.contains("Style: Default,Roboto,54,"));
    assert!(
        ass.contains("Dialogue: 0,0:00:00.00,99:99:99.99,Default,,0,0,54,,line one\\Nline two\n")
    );
}

// Further cases.

#[test]
fn error_card_rounds_halves_up_and_escapes_crlf() {
    let ass = error_card_subtitle("a\r\nb\rc", 640, 490);
    assert!(ass.starts_with("[Script Info]\nScriptType: v4.00+\n"));
    // 490 / 20 = 24.5, which rounds to 25
    assert!(ass.contains("Style: Default,Roboto,25,&HFFFFFF,,0,1,0,2,1\n"));
    assert!(ass.ends_with(",0,0,25,,a\\Nb\rc\n"));
}

#[test]
fn error_card_of_a_small_frame() {
    let ass = error_card_subtitle("", 0, 9);
    assert!(ass.contains("PlayResX: 0\nPlayResY: 9\n"));
    assert!(ass.contains("Style: Default,Roboto,0,"));
    assert!(ass.ends_with(",0,0,0,,\n"));
}

#[test]
fn error_card_has_fifteen_lines_whatever_the_message() {
    let ass = error_card_subtitle("one\ntwo\r\nthree", 1280, 720);
    assert!(ass.starts_with("[Script Info]\n"));
    assert_eq!(ass.matches('\n').count(), 15);
    assert!(ass.ends_with(",0,0,36,,one\\Ntwo\\Nthree\n"));
}
