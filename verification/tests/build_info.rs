use veloren::build_info::{get_git_hash, get_profile, git_hash_or_unknown, parse_i64, profile_name, recorded_secs};
use veloren::shader::Shader;

#[test]
fn check_git_hash() {
    assert_ne!(get_git_hash(), "");
}

#[test]
fn check_profile() {
    assert!(get_profile() == "debug" || get_profile() == "release");
}

#[test]
fn git_hash_without_record_is_unknown() {
    assert_eq!(get_git_hash(), "UNKNOWN GIT HASH");
}

#[test]
fn shader_bytes_are_the_utf8_of_its_code() {
    let shader = Shader::from_expanded("void main() {}\n");
    assert_eq!(shader.bytes(), b"void main() {}\n");
    let shader = Shader::from_expanded("// é\n");
    assert_eq!(shader.bytes(), "// é\n".as_bytes());
    assert_eq!(Shader::from_expanded("").bytes().len(), 0);
}

#[test]
fn shaders_are_expanded_from_their_context() {
    let context = glsl_include::Context::new();
    let shader = Shader::from_context(&context, "#version 330\nvoid main() {}\n").ok().unwrap();
    assert_eq!(shader.bytes(), b"#version 330\nvoid main() {}");
    let plain = Shader::from_context(&context, "void main() {}").ok().unwrap();
    assert_eq!(plain.bytes(), b"void main() {}");
}

#[test]
fn recorded_values() {
    assert_eq!(git_hash_or_unknown(Some("0123abcd")), "0123abcd");
    assert_eq!(git_hash_or_unknown(None), "UNKNOWN GIT HASH");
    assert_eq!(profile_name(true), "debug");
    assert_eq!(profile_name(false), "release");
    assert_eq!(recorded_secs(None), Some(-1));
    assert_eq!(recorded_secs(Some("1546300800")), Some(1546300800));
    assert_eq!(recorded_secs(Some("soon")), None);
}

#[test]
fn integers_read_as_str_parse_reads_them() {
    for s in ["-1", "+5", "", "-", "+", "12a", "007", " 1", "9223372036854775807", "9223372036854775808",
        "-9223372036854775808", "-9223372036854775809", "99999999999999999999999999"] {
        assert_eq!(parse_i64(s), s.parse::<i64>().ok(), "{}", s);
    }
}
