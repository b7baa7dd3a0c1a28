use cranelift::isa::arm32::registers as arm32;
use cranelift::isa::arm64::registers as arm64;
use cranelift::isa::registers::{regs_overlap, RegUnit};
use cranelift::isa::riscv::registers as riscv;

#[test]
fn unit_encodings() {
    let info = arm32::info();
    assert_eq!(info.parse_regunit("s0"), Some(0));
    assert_eq!(info.parse_regunit("s31"), Some(31));
    assert_eq!(info.parse_regunit("s32"), Some(32));
    assert_eq!(info.parse_regunit("r0"), Some(64));
    assert_eq!(info.parse_regunit("r15"), Some(79));
}

#[test]
fn registers_unit_encodings() {
    let info = arm64::info();
    assert_eq!(info.parse_regunit("x0"), Some(0));
    assert_eq!(info.parse_regunit("x31"), Some(31));
    assert_eq!(info.parse_regunit("v0"), Some(32));
    assert_eq!(info.parse_regunit("v31"), Some(63));

    assert_eq!(info.parse_regunit("x32"), None);
    assert_eq!(info.parse_regunit("v32"), None);

    let info = riscv::info();
    assert_eq!(info.parse_regunit("x0"), Some(0));
    assert_eq!(info.parse_regunit("x31"), Some(31));
    assert_eq!(info.parse_regunit("f0"), Some(32));
    assert_eq!(info.parse_regunit("f31"), Some(63));

    assert_eq!(info.parse_regunit("x32"), None);
    assert_eq!(info.parse_regunit("f32"), None);
}

#[test]
fn unit_names() {
    fn uname(ru: RegUnit) -> String {
        arm32::info().display_regunit(ru).to_string()
    }

    assert_eq!(uname(0), "%s0");
    assert_eq!(uname(1), "%s1");
    assert_eq!(uname(31), "%s31");
    assert_eq!(uname(64), "%r0");
}

#[test]
fn registers_unit_names() {
    fn uname64(ru: RegUnit) -> String {
        arm64::info().display_regunit(ru).to_string()
    }

    assert_eq!(uname64(0), "%x0");
    assert_eq!(uname64(1), "%x1");
    assert_eq!(uname64(31), "%x31");
    assert_eq!(uname64(32), "%v0");
    assert_eq!(uname64(33), "%v1");
    assert_eq!(uname64(63), "%v31");
    assert_eq!(uname64(64), "%nzcv");
    assert_eq!(uname64(65), "%INVALID65");

    fn uname_rv(ru: RegUnit) -> String {
        riscv::info().display_regunit(ru).to_string()
    }

    assert_eq!(uname_rv(0), "%x0");
    assert_eq!(uname_rv(1), "%x1");
    assert_eq!(uname_rv(31), "%x31");
    assert_eq!(uname_rv(32), "%f0");
    assert_eq!(uname_rv(33), "%f1");
    assert_eq!(uname_rv(63), "%f31");
    assert_eq!(uname_rv(64), "%INVALID64");
}

#[test]
fn overlaps() {
    // arm32 has the most interesting register geometries, so test `regs_overlap()` here.
    let gpr = arm32::gpr_data();
    let s = arm32::s_data();
    let d = arm32::d_data();

    let r0 = gpr.unit(0);
    let r1 = gpr.unit(1);
    let r2 = gpr.unit(2);

    assert!(regs_overlap(&gpr, r0, &gpr, r0));
    assert!(regs_overlap(&gpr, r2, &gpr, r2));
    assert!(!regs_overlap(&gpr, r0, &gpr, r1));
    assert!(!regs_overlap(&gpr, r1, &gpr, r0));
    assert!(!regs_overlap(&gpr, r2, &gpr, r1));
    assert!(!regs_overlap(&gpr, r1, &gpr, r2));

    let s0 = s.unit(0);
    let s1 = s.unit(1);
    let s2 = s.unit(2);
    let s3 = s.unit(3);
    let d0 = d.unit(0);
    let d1 = d.unit(1);

    assert!(regs_overlap(&s, s0, &d, d0));
    assert!(regs_overlap(&s, s1, &d, d0));
    assert!(!regs_overlap(&s, s0, &d, d1));
    assert!(!regs_overlap(&s, s1, &d, d1));
    assert!(regs_overlap(&s, s2, &d, d1));
    assert!(regs_overlap(&s, s3, &d, d1));
    assert!(!regs_overlap(&d, d1, &s, s1));
    assert!(regs_overlap(&d, d1, &s, s2));
    assert!(!regs_overlap(&d, d0, &d, d1));
    assert!(regs_overlap(&d, d1, &d, d1));
}

#[test]
fn classes() {
    let gpr = riscv::gpr_data();
    let fpr = riscv::fpr_data();
    assert!(gpr.contains(gpr.unit(0)));
    assert!(gpr.contains(gpr.unit(31)));
    assert!(!fpr.contains(gpr.unit(0)));
    assert!(!fpr.contains(gpr.unit(31)));
    assert!(!gpr.contains(fpr.unit(0)));
    assert!(!gpr.contains(fpr.unit(31)));
    assert!(fpr.contains(fpr.unit(0)));
    assert!(fpr.contains(fpr.unit(31)));
}

#[test]
fn named_units() {
    assert_eq!(arm32::info().parse_regunit("nzcv"), Some(80));
    assert_eq!(arm32::info().display_regunit(80), "%nzcv");
    assert_eq!(arm32::info().display_regunit(81), "%INVALID81");
    assert_eq!(arm32::info().parse_regunit("+7"), None);
    assert_eq!(arm32::info().parse_regunit("s+7"), Some(7));
    assert_eq!(arm64::info().parse_regunit("q1"), None);
}

#[test]
fn ru_numbers() {
    assert_eq!(arm32::RU::s0.into(), 0);
    assert_eq!(arm32::RU::r15.into(), 79);
    assert_eq!(arm32::RU::nzcv.into(), 80);
    assert_eq!(arm64::RU::v31.into(), 63);
    assert_eq!(arm64::RU::nzcv.into(), 64);
    assert_eq!(riscv::RU::x31.into(), 31);
    assert_eq!(riscv::RU::f31.into(), 63);
}
