use custodian::format::classify;
use custodian::format::is_supported_audio_format;
use custodian::format::matches_recorder_pattern;
use custodian::format::recorder_stamp;
use custodian::format::require_supported;
use custodian::error::AppError;
use custodian::format::to_lower;
use custodian::format::AudioFormat;
use custodian::format::ClassifiedFile;
use custodian::format::RecorderStamp;
use custodian::path::base_name;
use custodian::path::find_last;
use custodian::path::get_extension;
use custodian::path::get_filename;

#[test]
fn classifier_accepts_capital_mp3() {
    assert_eq!(classify("REC.MP3"), Some(AudioFormat::MP3));
}

#[test]
fn classifier_rejects_text_file() {
    assert_eq!(classify("notes.txt"), None);
}

#[test]
fn classifier_accepts_every_mix_of_case() {
    for name in ["a.mp3", "a.Mp3", "a.mP3", "a.MP3"] {
        assert_eq!(classify(name), Some(AudioFormat::MP3));
        assert!(is_supported_audio_format(name));
    }
    for name in ["a.mp4", "a.Mp4", "a.mP4", "a.MP4"] {
        assert_eq!(classify(name), Some(AudioFormat::MP4));
        assert!(is_supported_audio_format(name));
    }
}

#[test]
fn classifier_rejects_what_is_near_a_supported_extension() {
    for name in ["a.mp", "a.mp33", "a.mp5", "a.wav", "a.m4a", "a.mp3.bak", "mp3", "a.", "a"] {
        assert_eq!(classify(name), None);
        assert!(!is_supported_audio_format(name));
    }
}

#[test]
fn a_file_that_is_not_taken_in_is_an_unsupported_format() {
    assert_eq!(require_supported("in/notes.txt"), Err(AppError::UnsupportedFormat));
    assert_eq!(require_supported("in/voice"), Err(AppError::UnsupportedFormat));
    assert_eq!(require_supported("in/voice.mp3"), Ok(AudioFormat::MP3));
    assert_eq!(require_supported("in/clip.MP4"), Ok(AudioFormat::MP4));
}

#[test]
fn classifier_reads_the_last_component_only() {
    assert_eq!(classify("/in/box/take.mp4"), Some(AudioFormat::MP4));
    assert_eq!(classify("in.mp3/notes"), None);
    assert_eq!(classify("in/take.mp4/"), Some(AudioFormat::MP4));
    assert_eq!(classify("in/take.mp4/."), Some(AudioFormat::MP4));
    assert_eq!(classify("in/take.mp4/.."), None);
}

#[test]
fn a_name_that_opens_with_its_only_dot_has_no_extension() {
    assert_eq!(classify(".mp3"), None);
    assert_eq!(get_filename(".mp3"), ".mp3");
    assert_eq!(get_extension(".mp3"), "");
}

#[test]
fn from_extension_takes_the_extension_without_dot() {
    assert_eq!(AudioFormat::from_extension("mp3"), Some(AudioFormat::MP3));
    assert_eq!(AudioFormat::from_extension("MP4"), Some(AudioFormat::MP4));
    assert_eq!(AudioFormat::from_extension(".mp3"), None);
    assert_eq!(AudioFormat::from_extension(""), None);
    assert_eq!(AudioFormat::from_extension("ogg"), None);
    assert!(AudioFormat::is_supported("Mp3"));
    assert!(!AudioFormat::is_supported("txt"));
}

#[test]
fn only_ascii_capitals_are_lowered() {
    assert_eq!(to_lower('A'), 'a');
    assert_eq!(to_lower('Z'), 'z');
    assert_eq!(to_lower('m'), 'm');
    assert_eq!(to_lower('3'), '3');
    assert_eq!(to_lower('['), '[');
    assert_eq!(to_lower('@'), '@');
    assert_eq!(to_lower('É'), 'É');
}

#[test]
fn stem_and_extension_split_at_the_last_dot() {
    assert_eq!(get_filename("voice.mp3"), "voice");
    assert_eq!(get_extension("voice.mp3"), ".mp3");
    assert_eq!(get_filename("archive.tar.gz"), "archive.tar");
    assert_eq!(get_extension("archive.tar.gz"), ".gz");
    assert_eq!(get_filename("plain"), "plain");
    assert_eq!(get_extension("plain"), "");
    assert_eq!(get_filename("open."), "open");
    assert_eq!(get_extension("open."), ".");
    assert_eq!(get_filename("/a.b/c"), "c");
    assert_eq!(get_extension("/a.b/c"), "");
    assert_eq!(get_filename(""), "");
    assert_eq!(get_extension(""), "");
    assert_eq!(get_filename("dir/"), "dir");
    assert_eq!(get_filename("rec.mp3/"), "rec");
    assert_eq!(get_extension("rec.mp3/"), ".mp3");
    assert_eq!(get_filename(".."), "");
    assert_eq!(get_extension(".."), "");
    assert_eq!(get_filename("/"), "");
    assert_eq!(get_extension("a/.b.c/./"), ".c");
    assert_eq!(get_filename("dir/späße.mp3"), "späße");
    assert_eq!(get_extension("dir/späße.mp3"), ".mp3");
}

#[test]
fn stem_and_extension_make_up_the_name() {
    for path in ["voice.mp3", "a/b/c.d.e", ".hidden", "x.", "plain", "", "/", "a/", "..", "a/..b"] {
        let mut name = get_filename(path);
        name.push_str(&get_extension(path));
        assert_eq!(name, base_name(path).unwrap_or(""));
    }
}

#[test]
fn base_name_follows_the_last_separator() {
    assert_eq!(base_name("/in/box/take.mp4"), Some("take.mp4"));
    assert_eq!(base_name("take.mp4"), Some("take.mp4"));
    assert_eq!(base_name("in/"), Some("in"));
    assert_eq!(base_name("in/rec.mp3/."), Some("rec.mp3"));
    assert_eq!(base_name("/"), None);
    assert_eq!(base_name(""), None);
    assert_eq!(base_name("."), None);
    assert_eq!(base_name("in/.."), None);
}

const PATHS: [&str; 40] = [
    "", "/", "//", ".", "..", "./", "../", "./.", "/.", "/..", "a", "a/", "a//", "a/.", "a/./",
    "a/..", "a/../", "a/b", "/a", "//a", "/a/b/", "./a", "../a", "a/./b", "/./a", "rec.mp3",
    "rec.mp3/", "rec.mp3//.", "in/rec.MP3/./", ".mp3", "..mp3", "...", "a.", "a..", ".a.b",
    "in.d/x", "in.d/.x", "in/späße.mp4/", "a/b/..c", "x/.//",
];

#[test]
fn names_are_taken_as_the_standard_library_takes_them() {
    for path in PATHS {
        let std_path = std::path::Path::new(path);
        let name = std_path.file_name().map(|name| name.to_str().unwrap());
        let stem = std_path.file_stem().map(|stem| stem.to_str().unwrap()).unwrap_or("");
        let extension = std_path
            .extension()
            .map(|extension| format!(".{}", extension.to_str().unwrap()))
            .unwrap_or_default();
        assert_eq!(base_name(path), name, "{:?}", path);
        assert_eq!(get_filename(path), stem, "{:?}", path);
        assert_eq!(get_extension(path), extension, "{:?}", path);
    }
}

#[test]
fn files_are_classified_by_the_extension_that_the_standard_library_finds() {
    for path in PATHS {
        let lowered = std::path::Path::new(path)
            .extension()
            .map(|extension| extension.to_str().unwrap().to_lowercase());
        let expected = lowered.as_deref() == Some("mp3") || lowered.as_deref() == Some("mp4");
        assert_eq!(is_supported_audio_format(path), expected, "{:?}", path);
    }
}

#[test]
fn find_last_counts_characters() {
    assert_eq!(find_last("a.b.c", '.'), Some(3));
    assert_eq!(find_last("abc", '.'), None);
    assert_eq!(find_last("", '.'), None);
    assert_eq!(find_last("ää.ö", '.'), Some(2));
    assert_eq!(find_last(".", '.'), Some(0));
}

#[test]
fn recorder_names_are_recognised() {
    assert!(matches_recorder_pattern("R-00012_2401020304_REC.mp3"));
    assert!(matches_recorder_pattern("/media/card/R-99999_9912312359_rec.MP3"));
    assert!(matches_recorder_pattern("R-00000_0000000000_Rec.Mp3"));
    assert!(matches_recorder_pattern("card/R-00012_2401020304_REC.mp3/"));
}

#[test]
fn names_off_the_recorder_pattern_are_not() {
    for name in [
        "r-00012_2401020304_REC.mp3",
        "R_00012_2401020304_REC.mp3",
        "R-0001_2401020304_REC.mp3",
        "R-000123_2401020304_REC.mp3",
        "R-00012_240102030_REC.mp3",
        "R-00012_24010203045_REC.mp3",
        "R-0001a_2401020304_REC.mp3",
        "R-00012_24010203o4_REC.mp3",
        "R-00012-2401020304_REC.mp3",
        "R-00012_2401020304-REC.mp3",
        "R-00012_2401020304_REC.mp4",
        "R-00012_2401020304_REC_mp3",
        "R-00012_2401020304_REC.mp3 ",
        "xR-00012_2401020304_REC.mp3",
        "R-00012_2401020304_REC.mp3/x",
        "voice.mp3",
        "",
    ] {
        assert!(!matches_recorder_pattern(name), "{}", name);
        assert_eq!(recorder_stamp(name), None);
    }
}

#[test]
fn recorder_stamp_reads_the_ten_digits() {
    assert_eq!(
        recorder_stamp("in/R-00012_2401020304_REC.mp3"),
        Some(RecorderStamp { year: 24, month: 1, day: 2, hour: 3, minute: 4 })
    );
    assert_eq!(
        recorder_stamp("R-00012_9999999999_rec.mp3"),
        Some(RecorderStamp { year: 99, month: 99, day: 99, hour: 99, minute: 99 })
    );
}

#[test]
fn classified_file_holds_path_format_and_pattern() {
    assert_eq!(
        ClassifiedFile::of("in/R-00012_2401020304_REC.mp3"),
        Some(ClassifiedFile {
            path: "in/R-00012_2401020304_REC.mp3".to_string(),
            format: AudioFormat::MP3,
            recorder_pattern: true,
        })
    );
    assert_eq!(
        ClassifiedFile::of("in/voice.MP4"),
        Some(ClassifiedFile {
            path: "in/voice.MP4".to_string(),
            format: AudioFormat::MP4,
            recorder_pattern: false,
        })
    );
    assert_eq!(ClassifiedFile::of("in/notes.txt"), None);
}
