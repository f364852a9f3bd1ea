use winsafe::co;

#[test]
fn makelangid_puts_the_sublanguage_above_ten_bits() {
    let english = co::LANG(co::LANG::ENGLISH);
    assert_eq!(english.MAKELANGID(co::SUBLANG(co::SUBLANG::DEFAULT)), 0x0409);
    assert_eq!(english.MAKELANGID(co::SUBLANG(co::SUBLANG::SYS_DEFAULT)), 0x0809);
    let neutral = co::LANG(co::LANG::NEUTRAL);
    assert_eq!(neutral.MAKELANGID(co::SUBLANG(co::SUBLANG::NEUTRAL)), 0);
    assert_eq!(neutral.MAKELANGID(co::SUBLANG(co::SUBLANG::DEFAULT)), 0x0400);
    assert_eq!(co::LANG(co::LANG::PORTUGUESE).MAKELANGID(co::SUBLANG(0x02)), 0x0816);
}

#[test]
fn makelangid_works_within_sixteen_bits() {
    // The bits of the sublanguage that do not fit are lost.
    assert_eq!(co::LANG(0).MAKELANGID(co::SUBLANG(0xffff)), 0xfc00);
    assert_eq!(co::LANG(0xffff).MAKELANGID(co::SUBLANG(0)), 0xffff);
    assert_eq!(co::LANG(co::LANG::CHINESE_TRADITIONAL).MAKELANGID(co::SUBLANG(0x01)), 0x7c04);
    assert_eq!(co::LANG(0x0001).MAKELANGID(co::SUBLANG(0x0040)), 0x0001);
}

#[test]
fn composed_registry_rights_have_their_documented_values() {
    assert_eq!(co::KEY::READ, 0x0002_0019);
    assert_eq!(co::KEY::WRITE, 0x0002_0006);
    assert_eq!(co::KEY::EXECUTE, 0x0002_0019);
    assert_eq!(co::KEY::ALL_ACCESS, 0x000f_003f);
}

#[test]
fn composed_flags_have_their_documented_values() {
    assert_eq!(co::QS::MOUSE, 0x0006);
    assert_eq!(co::QS::INPUT, 0x1c07);
    assert_eq!(co::QS::ALLINPUT, 0x1cff);
    assert_eq!(co::RRF::RT_DWORD, 0x18);
    assert_eq!(co::RRF::RT_QWORD, 0x48);
    assert_eq!(co::CLIP::LH_ANGLES, 0x10);
    assert_eq!(co::CLIP::TT_ALWAYS, 0x20);
    assert_eq!(co::CLIP::DFA_DISABLE, 0x40);
    assert_eq!(co::CLIP::EMBEDDED, 0x80);
    assert_eq!(co::CLSCTX::ACTIVATE_32_BIT_SERVER, co::CLSCTX::ACTIVATE_X86_SERVER);
    assert_eq!(co::FW::ULTRALIGHT, 200);
    assert_eq!(co::FW::DEMIBOLD, 600);
    assert_eq!(co::FW::ULTRABOLD, 800);
    assert_eq!(co::FW::BLACK, 900);
}

#[test]
fn typed_values_compare_by_their_number() {
    assert_eq!(co::LANG(co::LANG::AZERI), co::LANG(co::LANG::AZERBAIJANI));
    assert_ne!(co::LANG(co::LANG::ENGLISH), co::LANG(co::LANG::FRENCH));
    assert_eq!(co::REG(co::REG::DWORD), co::REG(co::REG::DWORD_LITTLE_ENDIAN));
    assert_eq!(co::REGION(co::REGION::COMPLEX).0, 3);
    assert_eq!(co::OUT(co::OUT::PS_ONLY_PRECIS).0, 10);
    assert_eq!(co::QUALITY(co::QUALITY::CLEARTYPE_NATURAL).0, 6);
    assert_eq!(co::DLGID(co::DLGID::CONTINUE).0, 11);
    assert_eq!(co::COINIT(co::COINIT::MULTITHREADED).0, 0);
    assert_eq!(co::CS(co::CS::DROPSHADOW).0, 0x0002_0000);
    assert_eq!(co::REG_OPTION(co::REG_OPTION::OPEN_LINK).0, 8);
}

#[test]
fn a_tree_view_state_has_a_flag_if_they_share_a_bit() {
    let expanded = co::TVIS(co::TVIS::EXPANDED);
    assert!(co::TVIS(0x0022).has(expanded));
    assert!(!co::TVIS(0x0002).has(expanded));
    assert!(!co::TVIS(0).has(expanded));
    assert!(co::TVIS(0x0030).has(co::TVIS(0x0011)));
}
