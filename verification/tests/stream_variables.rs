use ffpipeline::stream_variables::expand;

#[test]
fn expands_the_channel_number() {
    assert_eq!(
        expand("http://origin.lan:8000/{{channel:number}}/stream.m3u8", "30"),
        "http://origin.lan:8000/30/stream.m3u8"
    );
}

#[test]
fn expands_every_occurrence() {
    assert_eq!(
        expand(
            "http://origin.lan:8000/{{channel:number}}/{{channel:number}}.m3u8",
            "30"
        ),
        "http://origin.lan:8000/30/30.m3u8"
    );
}

#[test]
fn substitutes_the_channel_number_verbatim() {
    assert_eq!(
        expand("http://origin.lan:8000/{{channel:number}}/stream.m3u8", "30.1"),
        "http://origin.lan:8000/30.1/stream.m3u8"
    );
}

#[test]
fn tolerates_whitespace_inside_the_braces() {
    assert_eq!(
        expand("http://origin.lan:8000/{{ channel:number }}/stream.m3u8", "30"),
        "http://origin.lan:8000/30/stream.m3u8"
    );
}

#[test]
fn survives_the_environment_pass() {
    // the environment pass re-emits a name that is not a valid environment variable
    // name verbatim, so this is the text that reaches the stream-variable pass
    let after_env = String::from("http://origin.lan:8000/{{channel:number}}/s.m3u8");
    assert_eq!(expand(&after_env, "30"), "http://origin.lan:8000/30/s.m3u8");
}

#[test]
fn leaves_an_environment_variable_reference_unchanged() {
    assert_eq!(
        expand("http://origin.lan:8000/{{MY_SECRET}}/stream.m3u8", "30"),
        "http://origin.lan:8000/{{MY_SECRET}}/stream.m3u8"
    );
}

#[test]
fn leaves_an_unknown_namespace_unchanged() {
    assert_eq!(
        expand("http://origin.lan:8000/{{query:region}}/stream.m3u8", "30"),
        "http://origin.lan:8000/{{query:region}}/stream.m3u8"
    );
}

#[test]
fn leaves_single_braces_unchanged() {
    assert_eq!(
        expand("http://origin.lan:8000/{channel:number}/stream.m3u8", "30"),
        "http://origin.lan:8000/{channel:number}/stream.m3u8"
    );
}

#[test]
fn leaves_an_unclosed_variable_unchanged() {
    assert_eq!(
        expand("http://origin.lan:8000/{{channel:number/stream.m3u8", "30"),
        "http://origin.lan:8000/{{channel:number/stream.m3u8"
    );
}

#[test]
fn leaves_a_uri_without_variables_unchanged() {
    assert_eq!(
        expand("http://origin.lan:8000/stream.m3u8", "30"),
        "http://origin.lan:8000/stream.m3u8"
    );
}

#[test]
fn expands_a_variable_that_follows_multibyte_content() {
    assert_eq!(
        expand("http://origin.lan:8000/café/{{channel:number}}.m3u8", "30"),
        "http://origin.lan:8000/café/30.m3u8"
    );
}

#[test]
fn empty_input_stays_empty() {
    assert_eq!(expand("", "30"), "");
}

#[test]
fn keeps_an_unrelated_variable_and_expands_the_next() {
    assert_eq!(
        expand("{{x}}{{channel:number}}{{", "7"),
        "{{x}}7{{"
    );
}

#[test]
fn expands_with_tabs_and_newlines_around_the_name() {
    assert_eq!(expand("a{{\tchannel:number\n}}b", "12"), "a12b");
}

#[test]
fn a_variable_value_is_never_expanded_again() {
    assert_eq!(
        expand("{{channel:number}}", "{{channel:number}}"),
        "{{channel:number}}"
    );
    assert_eq!(expand("a/{{channel:number}}/b", "7"), "a/7/b");
}
