//! Which files of a content folder the playout generator schedules.
use vstd::prelude::*;

use crate::text::str_eq;

verus! {

/// The file extensions of video content.
pub open spec fn video_extension(e: Seq<char>) -> bool {
    ||| e == "avs"@
    ||| e == "mpg"@
    ||| e == "mp2"@
    ||| e == "mpeg"@
    ||| e == "mpe"@
    ||| e == "mpv"@
    ||| e == "ogg"@
    ||| e == "ogv"@
    ||| e == "mp4"@
    ||| e == "m4p"@
    ||| e == "m4v"@
    ||| e == "avi"@
    ||| e == "wmv"@
    ||| e == "mov"@
    ||| e == "mkv"@
    ||| e == "m2ts"@
    ||| e == "ts"@
    ||| e == "webm"@
}

/// The file extensions of still images.
pub open spec fn image_extension(e: Seq<char>) -> bool {
    e == "png"@
}

/// Whether a file with this extension is video; a file without a (UTF-8) extension is
/// not.
pub fn is_video_extension(extension: Option<&str>) -> (r: bool)
    ensures
        r == (extension matches Some(e) && video_extension(e@)),
{
    match extension {
        Some(e) => {
            str_eq(e, "avs")
            || str_eq(e, "mpg")
            || str_eq(e, "mp2")
            || str_eq(e, "mpeg")
            || str_eq(e, "mpe")
            || str_eq(e, "mpv")
            || str_eq(e, "ogg")
            || str_eq(e, "ogv")
            || str_eq(e, "mp4")
            || str_eq(e, "m4p")
            || str_eq(e, "m4v")
            || str_eq(e, "avi")
            || str_eq(e, "wmv")
            || str_eq(e, "mov")
            || str_eq(e, "mkv")
            || str_eq(e, "m2ts")
            || str_eq(e, "ts")
            || str_eq(e, "webm")
        },
        None => false,
    }
}

/// Whether a file with this extension is a still image; a file without a (UTF-8)
/// extension is not.
pub fn is_image_extension(extension: Option<&str>) -> (r: bool)
    ensures
        r == (extension matches Some(e) && image_extension(e@)),
{
    match extension {
        Some(e) => str_eq(e, "png"),
        None => false,
    }
}


/// Every extension of the playout generator's video list is classified as video, and
/// nothing outside that list is.
pub proof fn lemma_video_extension_list(e: Seq<char>)
    ensures
        ({
            let listed = seq![
                "avs"@, "mpg"@, "mp2"@, "mpeg"@, "mpe"@, "mpv"@, "ogg"@, "ogv"@, "mp4"@,
                "m4p"@, "m4v"@, "avi"@, "wmv"@, "mov"@, "mkv"@, "m2ts"@, "ts"@, "webm"@,
            ];
            &&& forall|i: int| 0 <= i < listed.len() ==> video_extension(#[trigger] listed[i])
            &&& video_extension(e) <==> listed.contains(e)
        }),
        image_extension("png"@),
        !(video_extension(e) && image_extension(e)),
{
    reveal_strlit("png");
    if image_extension(e) {
        reveal_strlit("avs");
        reveal_strlit("mpg");
        reveal_strlit("mp2");
        reveal_strlit("mpeg");
        reveal_strlit("mpe");
        reveal_strlit("mpv");
        reveal_strlit("ogg");
        reveal_strlit("ogv");
        reveal_strlit("mp4");
        reveal_strlit("m4p");
        reveal_strlit("m4v");
        reveal_strlit("avi");
        reveal_strlit("wmv");
        reveal_strlit("mov");
        reveal_strlit("mkv");
        reveal_strlit("m2ts");
        reveal_strlit("ts");
        reveal_strlit("webm");
        assert(e[0] == 'p');
    }
    let listed = seq![
        "avs"@, "mpg"@, "mp2"@, "mpeg"@, "mpe"@, "mpv"@, "ogg"@, "ogv"@, "mp4"@,
        "m4p"@, "m4v"@, "avi"@, "wmv"@, "mov"@, "mkv"@, "m2ts"@, "ts"@, "webm"@,
    ];
    assert(listed[0] == "avs"@ && listed[1] == "mpg"@ && listed[2] == "mp2"@);
    assert(listed[3] == "mpeg"@ && listed[4] == "mpe"@ && listed[5] == "mpv"@);
    assert(listed[6] == "ogg"@ && listed[7] == "ogv"@ && listed[8] == "mp4"@);
    assert(listed[9] == "m4p"@ && listed[10] == "m4v"@ && listed[11] == "avi"@);
    assert(listed[12] == "wmv"@ && listed[13] == "mov"@ && listed[14] == "mkv"@);
    assert(listed[15] == "m2ts"@ && listed[16] == "ts"@ && listed[17] == "webm"@);
    if listed.contains(e) {
        let i = choose|i: int| 0 <= i < listed.len() && listed[i] == e;
        assert(video_extension(listed[i]));
    }
}

} // verus!
