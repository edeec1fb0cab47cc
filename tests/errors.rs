use meta2vm::machine::{Fault, LoadError, VM, Status};
use meta2vm::opcode::Opcode;
use meta2vm::stack::{label_bytes, LABEL_LIMIT};

fn image(code: &[u8]) -> Vec<u8> {
    let mut p = vec![46, 109, 101, 116, 97, 0, 0, 8];
    p.extend_from_slice(code);
    p
}

#[test]
fn short_image_is_refused() {
    assert_eq!(VM::new(vec![46, 109, 101], vec![]).err(), Some(LoadError::TooShort));
}

#[test]
fn bad_magic_is_refused() {
    let p = vec![46, 109, 101, 116, 97, 0, 0, 4, 13];
    assert_eq!(VM::new(p.clone(), vec![]).err(), Some(LoadError::BadMagic));
    assert!(!VM::validate_header(&p));
    assert!(VM::validate_header(&image(&[])));
}

#[test]
fn loaded_image_drops_header() {
    let m = VM::new(image(&[13, 7]), b"in".to_vec()).unwrap();
    assert_eq!(m.code, vec![13, 7]);
    assert_eq!(m.addrsize, 8);
    assert_eq!(m.ip, 0);
    assert!(!m.switch);
    assert_eq!(m.stack.depth(), 1);
}

#[test]
fn unknown_opcode_faults() {
    let mut m = VM::new(image(&[20]), vec![]).unwrap();
    assert_eq!(m.step(), Status::Fault(Fault::BadOpcode));
    let mut m = VM::new(image(&[0]), vec![]).unwrap();
    assert_eq!(m.step().exit_code(), Some(2));
}

#[test]
fn running_off_the_code_faults() {
    let mut m = VM::new(image(&[]), vec![]).unwrap();
    assert_eq!(m.run(10), Status::Fault(Fault::IpOutOfRange));
}

#[test]
fn truncated_operands_fault() {
    let mut m = VM::new(image(&[1, 0, 0]), vec![]).unwrap();
    assert_eq!(m.step(), Status::Fault(Fault::TruncatedOperand));
    let mut m = VM::new(image(&[6, b'a', b'b']), vec![]).unwrap();
    assert_eq!(m.step(), Status::Fault(Fault::TruncatedOperand));
}

#[test]
fn label_generator_runs_out() {
    let mut m = VM::new(image(&[17, 13]), vec![]).unwrap();
    m.counter = LABEL_LIMIT;
    assert_eq!(m.step(), Status::Fault(Fault::LabelsExhausted));
}

#[test]
fn be_with_switch_off_is_syntax_error() {
    let mut m = VM::new(image(&[5, 13]), vec![]).unwrap();
    let s = m.step();
    assert_eq!(s, Status::SyntaxError);
    assert_eq!(s.exit_code(), Some(1));
    assert_eq!(Status::Running.exit_code(), None);
    assert_eq!(Status::Finished.exit_code(), Some(0));
}

#[test]
fn label_texts() {
    assert_eq!(label_bytes(0), b"A0".to_vec());
    assert_eq!(label_bytes(7), b"A7".to_vec());
    assert_eq!(label_bytes(99), b"A99".to_vec());
    assert_eq!(label_bytes(100), b"B0".to_vec());
    assert_eq!(label_bytes(2599), b"Z99".to_vec());
}

#[test]
fn opcode_bytes() {
    assert_eq!(Opcode::from_byte(1), Some(Opcode::ADR));
    assert_eq!(Opcode::from_byte(19), Some(Opcode::B));
    assert_eq!(Opcode::from_byte(13), Some(Opcode::END));
    assert_eq!(Opcode::from_byte(0), None);
    assert_eq!(Opcode::from_byte(20), None);
}

#[test]
fn new_label_counts_up() {
    let mut m = VM::new(image(&[13]), vec![]).unwrap();
    assert_eq!(m.new_label(), Some(0));
    assert_eq!(m.new_label(), Some(1));
    m.counter = LABEL_LIMIT;
    assert_eq!(m.new_label(), None);
}

#[test]
fn literal_operands() {
    let mut m = VM::new(image(&[b'o', b'k', 0, 9]), vec![]).unwrap();
    assert_eq!(m.get_input_string(), Some(b"ok".to_vec()));
    assert_eq!(m.ip, 0);
    m.cursor = meta2vm::cursor::Cursor::new(b" \n x ".to_vec());
    m.consume_input_whitespace();
    assert_eq!(m.cursor.pos, 3);
    assert_eq!(m.ip, 0);
    assert_eq!(m.consume_string(), Some(b"ok".to_vec()));
    assert_eq!(m.ip, 3);
    assert_eq!(m.consume_string(), None);
    assert_eq!(m.ip, 3);
}
