use iced_reg::register;
use iced_reg::Fault;
use iced_reg::Field;
use iced_reg::Register;
use iced_reg::RegisterMap;

fn reg(address: u16, read_value: u16, write_value: u16) -> Register {
    Register::new(
        read_value,
        write_value,
        format!("REG_{}", address),
        address,
        Vec::new(),
    )
}

#[test]
fn empty_map_knows_nothing() {
    let m = RegisterMap::new();
    assert_eq!(m.len(), 0);
    match m.get(0x01) {
        Err(Fault::UnknownAddress(a)) => assert_eq!(a, 0x01),
        _ => panic!("lookup in an empty map must fail with the address"),
    }
}

#[test]
fn set_write_value_then_get_returns_it() {
    let mut m = RegisterMap::new();
    m.insert(reg(0x01, 0, 0));
    assert!(m.set_write_value(0x01, 0xBEEF).is_ok());
    let r = m.get(0x01).unwrap();
    assert_eq!(r.write_value, 0xBEEF);
    assert_eq!(r.read_value, 0);
}

#[test]
fn set_read_value_leaves_write_value() {
    let mut m = RegisterMap::new();
    m.insert(reg(0x02, 0, 0x00A0));
    assert!(m.set_read_value(0x02, 0x5AA5).is_ok());
    let r = m.get(0x02).unwrap();
    assert_eq!(r.read_value, 0x5AA5);
    assert_eq!(r.write_value, 0x00A0);
}

#[test]
fn setters_reject_unknown_addresses() {
    let mut m = RegisterMap::new();
    m.insert(reg(0x01, 0, 0));
    assert_eq!(m.set_read_value(0x09, 1), Err(Fault::UnknownAddress(0x09)));
    assert_eq!(m.set_write_value(0x09, 1), Err(Fault::UnknownAddress(0x09)));
    assert_eq!(m.toggle_write_bit(0x09, 0), Err(Fault::UnknownAddress(0x09)));
    assert_eq!(m.copy_read_to_write(0x09), Err(Fault::UnknownAddress(0x09)));
    let r = m.get(0x01).unwrap();
    assert_eq!(r.read_value, 0);
    assert_eq!(r.write_value, 0);
}

#[test]
fn toggle_twice_restores_write_value() {
    let mut m = RegisterMap::new();
    m.insert(reg(0x01, 0, 0x00A0));
    for index in 0..16 {
        assert!(m.toggle_write_bit(0x01, index).is_ok());
        assert!(m.toggle_write_bit(0x01, index).is_ok());
        assert_eq!(m.get(0x01).unwrap().write_value, 0x00A0);
    }
}

#[test]
fn bit_scenario_on_one_register() {
    let mut m = RegisterMap::new();
    m.insert(reg(0x01, 0, 0));
    m.toggle_write_bit(0x01, 0).unwrap();
    assert_eq!(m.get(0x01).unwrap().write_value, 1);
    m.toggle_write_bit(0x01, 4).unwrap();
    assert_eq!(m.get(0x01).unwrap().write_value, 17);
    m.set_read_value(0x01, 0xAA).unwrap();
    m.copy_read_to_write(0x01).unwrap();
    assert_eq!(m.get(0x01).unwrap().write_value, 0xAA);
    assert_eq!(m.get(0x01).unwrap().read_value, 0xAA);
}

#[test]
fn iteration_is_in_ascending_address_order() {
    let mut m = RegisterMap::new();
    m.insert(reg(0x03, 0, 0));
    m.insert(reg(0x00, 0, 0));
    m.insert(reg(0x02, 0, 0));
    m.insert(reg(0x01, 0, 0));
    assert_eq!(m.len(), 4);
    for i in 0..4 {
        assert_eq!(m.at(i).address, i as u16);
    }
}

#[test]
fn insert_replaces_an_existing_address() {
    let mut m = RegisterMap::new();
    m.insert(reg(0x01, 1, 2));
    m.insert(reg(0x01, 3, 4));
    assert_eq!(m.len(), 1);
    let r = m.get(0x01).unwrap();
    assert_eq!(r.read_value, 3);
    assert_eq!(r.write_value, 4);
}

#[test]
fn mutating_one_register_leaves_the_others() {
    let mut m = RegisterMap::new();
    m.insert(reg(0x00, 10, 20));
    m.insert(reg(0x01, 30, 40));
    m.insert(reg(0x02, 50, 60));
    m.set_write_value(0x01, 0xFFFF).unwrap();
    assert_eq!(m.get(0x00).unwrap().write_value, 20);
    assert_eq!(m.get(0x02).unwrap().write_value, 60);
    assert_eq!(m.get(0x00).unwrap().read_value, 10);
    assert_eq!(m.get(0x02).unwrap().read_value, 50);
}

#[test]
fn register_constructors_carry_their_arguments() {
    let fields = vec![
        Field { name: String::from("A"), width: 1 },
        Field { name: String::from("B"), width: 2 },
    ];
    let r = register(0x5AA5, 0x00A0, String::from("REG_NAME"), 0x00AD, fields);
    assert_eq!(r.read_value, 0x5AA5);
    assert_eq!(r.write_value, 0x00A0);
    assert_eq!(r.name, "REG_NAME");
    assert_eq!(r.address, 0x00AD);
    assert_eq!(r.fields.len(), 2);
    assert_eq!(r.fields[0].name, "A");
    assert_eq!(r.fields[1].width, 2);
}
