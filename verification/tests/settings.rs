use cranelift::settings::SetError::{BadName, BadValue};
use cranelift::settings::{builder, Configurable, Flags, OptLevel, SetError};

#[test]
fn display_default() {
    let b = builder();
    let f = Flags::new(b);
    assert_eq!(
        f.to_string(),
        "[shared]\n\
         opt_level = \"default\"\n\
         baldrdash_prologue_words = 0\n\
         probestack_size_log2 = 12\n\
         enable_verifier = true\n\
         is_pic = false\n\
         colocated_libcalls = false\n\
         avoid_div_traps = false\n\
         enable_float = true\n\
         enable_nan_canonicalization = false\n\
         enable_simd = true\n\
         enable_atomics = true\n\
         allones_funcaddrs = false\n\
         probestack_enabled = true\n\
         probestack_func_adjusts_sp = false\n\
         jump_tables_enabled = true\n"
    );
    assert_eq!(f.opt_level(), OptLevel::Default);
    assert_eq!(f.enable_simd(), true);
    assert_eq!(f.baldrdash_prologue_words(), 0);
}

#[test]
fn modify_bool() {
    let mut b = builder();
    assert_eq!(b.enable("not_there"), Err(BadName("not_there".to_string())));
    assert_eq!(b.enable("enable_simd"), Ok(()));
    assert_eq!(b.set("enable_simd", "false"), Ok(()));

    let f = Flags::new(b);
    assert_eq!(f.enable_simd(), false);
}

#[test]
fn modify_string() {
    let mut b = builder();
    assert_eq!(
        b.set("not_there", "true"),
        Err(BadName("not_there".to_string()))
    );
    assert_eq!(b.set("enable_simd", ""), Err(BadValue("bool".to_string())));
    assert_eq!(
        b.set("enable_simd", "best"),
        Err(BadValue("bool".to_string()))
    );
    assert_eq!(
        b.set("opt_level", "true"),
        Err(BadValue("any among default, best, fastest".to_string()))
    );
    assert_eq!(b.set("opt_level", "best"), Ok(()));
    assert_eq!(b.set("enable_simd", "0"), Ok(()));

    let f = Flags::new(b);
    assert_eq!(f.enable_simd(), false);
    assert_eq!(f.opt_level(), OptLevel::Best);
}

#[test]
fn enable_wrong_type() {
    let mut b = builder();
    assert_eq!(b.enable("opt_level"), Err(SetError::BadType));
    assert_eq!(b.enable("baldrdash_prologue_words"), Err(SetError::BadType));
}

#[test]
fn set_number_setting() {
    let mut b = builder();
    assert_eq!(b.set("baldrdash_prologue_words", "+7"), Ok(()));
    assert_eq!(b.set("probestack_size_log2", "256"), Err(BadValue("number".to_string())));
    assert_eq!(b.set("probestack_size_log2", "x1"), Err(BadValue("number".to_string())));
    assert_eq!(b.set("probestack_size_log2", "13"), Ok(()));
    let f = Flags::new(b);
    assert_eq!(f.baldrdash_prologue_words(), 7);
    assert_eq!(f.probestack_size_log2(), 13);
}

#[test]
fn set_number_edge_cases() {
    let mut b = builder();
    assert_eq!(b.set("probestack_size_log2", ""), Err(BadValue("number".to_string())));
    assert_eq!(b.set("probestack_size_log2", "+"), Err(BadValue("number".to_string())));
    assert_eq!(b.set("probestack_size_log2", "-1"), Err(BadValue("number".to_string())));
    assert_eq!(b.set("probestack_size_log2", "1 "), Err(BadValue("number".to_string())));
    assert_eq!(b.set("probestack_size_log2", "1000"), Err(BadValue("number".to_string())));
    assert_eq!(b.set("baldrdash_prologue_words", "0255"), Ok(()));
    let f = Flags::new(b);
    assert_eq!(f.baldrdash_prologue_words(), 255);
}

#[test]
fn bool_words() {
    for w in ["true", "on", "yes", "1"] {
        let mut b = builder();
        assert_eq!(b.set("is_pic", w), Ok(()));
        assert_eq!(Flags::new(b.clone()).is_pic(), true);
        assert_eq!(b.set("is_pic", "false"), Ok(()));
        assert_eq!(Flags::new(b).is_pic(), false);
    }
    for w in ["false", "off", "no", "0"] {
        let mut b = builder();
        assert_eq!(b.set("enable_float", w), Ok(()));
        assert_eq!(Flags::new(b).enable_float(), false);
    }
}

#[test]
fn opt_level_names_round_trip() {
    for l in [OptLevel::Default, OptLevel::Best, OptLevel::Fastest] {
        assert_eq!(OptLevel::from_str(&l.to_string()), Ok(l));
    }
    assert_eq!(OptLevel::from_str("quick"), Err(()));
}

#[test]
fn error_messages() {
    assert_eq!(
        BadName("x".to_string()).message(),
        "No existing setting named 'x'"
    );
    assert_eq!(SetError::BadType.message(), "Trying to set a setting with the wrong type");
    assert_eq!(
        BadValue("bool".to_string()).message(),
        "Unexpected value for a setting, expected bool"
    );
}

#[test]
fn predicate_view_matches_getters() {
    let mut b = builder();
    assert_eq!(b.set("enable_atomics", "no"), Ok(()));
    let f = Flags::new(b);
    let v = f.predicate_view();
    assert_eq!(v.test(6), f.enable_simd());
    assert_eq!(v.test(7), f.enable_atomics());
    assert_eq!(v.test(7), false);
    assert_eq!(v.test(11), f.jump_tables_enabled());
}
