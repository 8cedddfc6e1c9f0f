use nrf_recover::locator::find_ctrl_ap;
use nrf_recover::registers::{ctrl_ap_idr, ApClass, ApType, Idr};

fn signature_word() -> u32 {
    ctrl_ap_idr().to_wire()
}

fn other_word() -> u32 {
    Idr {
        revision: 2,
        variant: 0,
        designer: 0x04BB,
        class: ApClass::MemAp,
        ap_type: ApType::AhbMemAp,
    }
    .to_wire()
}

#[test]
fn not_found_in_empty_list() {
    assert_eq!(find_ctrl_ap(&Vec::new()), None);
}

#[test]
fn not_found_when_nothing_matches() {
    let words = vec![other_word(), 0, 0xFFFF_FFFF];
    assert_eq!(find_ctrl_ap(&words), None);
}

#[test]
fn single_match_is_found() {
    let words = vec![other_word(), signature_word(), other_word()];
    assert_eq!(find_ctrl_ap(&words), Some(1));
}

#[test]
fn first_of_several_matches_wins() {
    let words = vec![other_word(), signature_word(), signature_word()];
    assert_eq!(find_ctrl_ap(&words), Some(1));
}

#[test]
fn example_word_locates_the_port() {
    let words = vec![other_word(), 0x0144_8_A];
    assert_eq!(find_ctrl_ap(&words), Some(1));
}

#[test]
fn near_signature_words_do_not_match() {
    // Same designer, but a recognized class or a different type.
    let wrong_class = 0x0144_1_A;
    let wrong_type = 0x0144_8_1;
    let wrong_designer = 0x0145_8_A;
    assert_eq!(find_ctrl_ap(&vec![wrong_class, wrong_type, wrong_designer]), None);
}
