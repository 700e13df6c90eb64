use gba::background::BGSize;
use gba::rom::{PhiTerminalOutput, WaitstateFirstAccess};

#[test]
fn waitstate_fields() {
    assert_eq!(WaitstateFirstAccess::Cycles8.bits(), 3);
    assert_eq!(WaitstateFirstAccess::from_bits(1), WaitstateFirstAccess::Cycles3);
    assert_eq!(WaitstateFirstAccess::from_bits(6), WaitstateFirstAccess::Cycles2);
    assert_eq!(WaitstateFirstAccess::Cycles8.cycles(), 8);
}

#[test]
fn phi_output_fields() {
    assert_eq!(PhiTerminalOutput::Freq16MHz.bits(), 3);
    assert_eq!(PhiTerminalOutput::from_bits(0), PhiTerminalOutput::Disabled);
}

#[test]
fn background_sizes() {
    assert_eq!(BGSize::from_bits(3), BGSize::Three);
    assert_eq!(BGSize::Two.bits(), 2);
    assert_eq!(BGSize::One.text_pixels(), (512, 256));
    assert_eq!(BGSize::Three.affine_pixels(), 1024);
}
