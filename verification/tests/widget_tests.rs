use iced_reg::bit_value;
use iced_reg::toggle_bit;
use iced_reg::Message;
use iced_reg::Register;
use iced_reg::RegisterMessage;

fn widget_register() -> Register {
    Register::new(0x5AA5, 0x00A0, String::from("REG_NAME"), 0x00AD, Vec::new())
}

#[test]
fn bit_value_extracts_each_bit() {
    // 0x5AA5 = 0b0101_1010_1010_0101
    let expected = [1, 0, 1, 0, 0, 1, 0, 1, 0, 1, 0, 1, 1, 0, 1, 0];
    for (index, want) in expected.iter().enumerate() {
        assert_eq!(bit_value(0x5AA5, index as u16), *want);
    }
}

#[test]
fn toggle_bit_flips_exactly_one_bit() {
    assert_eq!(toggle_bit(0x0000, 0), 0x0001);
    assert_eq!(toggle_bit(0x0001, 4), 0x0011);
    assert_eq!(toggle_bit(0x0011, 4), 0x0001);
    for index in 0..16 {
        assert_eq!(toggle_bit(toggle_bit(0x00A0, index), index), 0x00A0);
    }
}

#[test]
fn decode_stamps_the_register_address() {
    let r = widget_register();
    assert_eq!(
        r.update(RegisterMessage::ReadRegChanged(0x1234)),
        Message::RegReadValChanged(0x00AD, 0x1234)
    );
    assert_eq!(
        r.update(RegisterMessage::WriteRegChanged(0x4321)),
        Message::RegWriteValChanged(0x00AD, 0x4321)
    );
    assert_eq!(r.update(RegisterMessage::RegRead), Message::RegRead(0x00AD));
    assert_eq!(r.update(RegisterMessage::RegWrite), Message::RegWrite(0x00AD));
    assert_eq!(r.update(RegisterMessage::RegReadToWrite), Message::RegReadToWrite(0x00AD));
}
