use my_os::cpu::boot::{prep_el2_to_el1_trans, El2ToEl1Transition};
use my_os::exception::asynchronous::{
    daif_field, is_masked, print_state, to_mask_str, Exception, MaskState, MASKED, UNMASKED,
};
use my_os::exception::{current_privilege_level, PrivilegeLevel};

#[test]
fn the_transition_lands_in_el1_with_timer_and_stack() {
    let transition = prep_el2_to_el1_trans(0x8_0000, 0x8_1234);
    assert_eq!(
        transition,
        El2ToEl1Transition {
            cnthctl_el2: 0b11,
            cntvoff_el2: 0,
            hcr_el2: 1 << 31,
            spsr_el2: 0b0101,
            elr_el2: 0x8_1234,
            sp_el1: 0x8_0000,
        }
    );
}

#[test]
fn the_transition_masks_no_exception() {
    let transition = prep_el2_to_el1_trans(u64::MAX, 0);
    assert_eq!(transition.spsr_el2 & 0x3c0, 0);
    assert_eq!(transition.spsr_el2 & 0xf, 5);
    assert_eq!(transition.sp_el1, u64::MAX);
    assert_eq!(transition.elr_el2, 0);
}

#[test]
fn the_privilege_level_is_read_from_bits_three_and_two() {
    assert_eq!(current_privilege_level(0b0000), (PrivilegeLevel::User, "EL0"));
    assert_eq!(current_privilege_level(0b0100), (PrivilegeLevel::Kernel, "EL1"));
    assert_eq!(current_privilege_level(0b1000), (PrivilegeLevel::Hypervisor, "EL2"));
    assert_eq!(current_privilege_level(0b1100), (PrivilegeLevel::Unknown, "Unknown"));
    assert_eq!(current_privilege_level(0xffff_ffff_ffff_fff7), (PrivilegeLevel::Kernel, "EL1"));
}

#[test]
fn each_exception_has_its_mask_bit() {
    assert_eq!((daif_field(Exception::Debug).mask, daif_field(Exception::Debug).shift), (1, 9));
    assert_eq!((daif_field(Exception::SError).mask, daif_field(Exception::SError).shift), (1, 8));
    assert_eq!((daif_field(Exception::IRQ).mask, daif_field(Exception::IRQ).shift), (1, 7));
    assert_eq!((daif_field(Exception::FIQ).mask, daif_field(Exception::FIQ).shift), (1, 6));
    assert!(is_masked(Exception::Debug, 1 << 9));
    assert!(!is_masked(Exception::Debug, !(1 << 9)));
    assert!(is_masked(Exception::SError, 1 << 8));
    assert!(is_masked(Exception::IRQ, 1 << 7));
    assert!(is_masked(Exception::FIQ, 1 << 6));
    assert!(!is_masked(Exception::FIQ, 1 << 7));
}

#[test]
fn the_mask_state_is_reported_in_words() {
    assert_eq!(to_mask_str(true), "Masked");
    assert_eq!(to_mask_str(false), "Unmasked");
    assert_eq!(
        print_state(0x3c0),
        MaskState { debug: MASKED, serror: MASKED, irq: MASKED, fiq: MASKED }
    );
    assert_eq!(
        print_state(0),
        MaskState { debug: UNMASKED, serror: UNMASKED, irq: UNMASKED, fiq: UNMASKED }
    );
    assert_eq!(
        print_state(0x280),
        MaskState { debug: MASKED, serror: UNMASKED, irq: MASKED, fiq: UNMASKED }
    );
}
