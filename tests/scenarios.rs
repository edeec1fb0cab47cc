use meta2vm::machine::{VM, Status};

fn image(code: &[u8]) -> Vec<u8> {
    let mut p = vec![46, 109, 101, 116, 97, 0, 0, 8];
    p.extend_from_slice(code);
    p
}

fn run_to_end(m: &mut VM) -> (Status, Vec<u8>) {
    let mut out = Vec::new();
    loop {
        let s = m.run(1000);
        out.extend(m.take_output());
        if s != Status::Running {
            return (s, out);
        }
    }
}

fn exec(code: &[u8], input: &str) -> (u8, Vec<u8>) {
    let mut m = VM::new(image(code), input.as_bytes().to_vec()).unwrap();
    let (s, out) = run_to_end(&mut m);
    (s.exit_code().unwrap(), out)
}

fn echo_program() -> Vec<u8> {
    vec![1, 9, 0, 0, 0, 0, 0, 0, 0, 2, b'h', b'i', 0, 5, 6, b'o', b'k', 0, 8, 13]
}

#[test]
fn minimal_program() {
    assert_eq!(exec(&[13], ""), (0, vec![]));
}

#[test]
fn literal_echo() {
    assert_eq!(exec(&echo_program(), "hi"), (0, b"\tok \n".to_vec()));
}

#[test]
fn failed_match() {
    assert_eq!(exec(&echo_program(), "no"), (1, vec![]));
}

#[test]
fn identifier_copy() {
    assert_eq!(exec(&[4, 7, 8, 13], "  foo123 "), (0, b"\tfoo123 \n".to_vec()));
}

#[test]
fn quoted_string_passthrough() {
    assert_eq!(
        exec(&[14, 7, 8, 13], "  'hello world'"),
        (0, b"\t'hello world' \n".to_vec())
    );
}

#[test]
fn label_generation_stability() {
    let code = [17, 6, b':', 0, 8, 17, 6, b':', 0, 8, 13];
    let mut m = VM::new(image(&code), vec![]).unwrap();
    let (s, out) = run_to_end(&mut m);
    assert_eq!(s, Status::Finished);
    assert_eq!(out, b"\tA0 : \n\tA0 : \n".to_vec());
    assert_eq!(m.counter, 1);
}

#[test]
fn return_from_sentinel_finishes() {
    assert_eq!(exec(&[12], ""), (0, vec![]));
}

#[test]
fn call_and_return_balance() {
    // CLL 10; END; at 10: R
    let code = [9, 10, 0, 0, 0, 0, 0, 0, 0, 13, 12];
    let mut m = VM::new(image(&code), vec![]).unwrap();
    assert_eq!(m.step(), Status::Running);
    assert_eq!(m.stack.depth(), 2);
    assert_eq!(m.ip, 10);
    assert_eq!(m.step(), Status::Running);
    assert_eq!(m.stack.depth(), 1);
    assert_eq!(m.ip, 9);
    assert_eq!(m.step(), Status::Finished);
}

#[test]
fn labels_are_per_frame() {
    // GN1; OUT; CLL 21; GN1; OUT; END; at 21: GN1; GN2; OUT; R
    let code = [
        17, 8, 9, 21, 0, 0, 0, 0, 0, 0, 0, 17, 8, 13, 0, 0, 0, 0, 0, 0, 0, 17, 18, 8, 12,
    ];
    assert_eq!(exec(&code, ""), (0, b"\tA0 \n\tA1 A2 \n\tA0 \n".to_vec()));
}

#[test]
fn tst_skips_whitespace_then_consumes_literal() {
    let code = [2, b'a', b'b', 0, 13];
    let mut m = VM::new(image(&code), b" \t\r\nabc".to_vec()).unwrap();
    assert_eq!(m.step(), Status::Running);
    assert!(m.switch);
    assert_eq!(m.token, b"ab".to_vec());
    assert_eq!(m.cursor.bytes[m.cursor.pos..].to_vec(), b"c".to_vec());
    assert_eq!(m.ip, 4);
}

#[test]
fn failed_recognizer_keeps_input_after_whitespace() {
    for op in [2u8, 4, 14] {
        let code = [op, b'x', 0, 13];
        let mut m = VM::new(image(&code), b"  9z".to_vec()).unwrap();
        m.token = b"old".to_vec();
        assert_eq!(m.step(), Status::Running);
        assert!(!m.switch);
        assert_eq!(m.token, b"old".to_vec());
        assert_eq!(m.cursor.bytes[m.cursor.pos..].to_vec(), b"9z".to_vec());
    }
}

#[test]
fn tst_on_short_input_fails() {
    let code = [2, b'a', b'b', b'c', 0, 13];
    let mut m = VM::new(image(&code), b" ab".to_vec()).unwrap();
    assert_eq!(m.step(), Status::Running);
    assert!(!m.switch);
    assert_eq!(m.cursor.bytes[m.cursor.pos..].to_vec(), b"ab".to_vec());
}

#[test]
fn identifier_stops_at_end_of_input() {
    let mut m = VM::new(image(&[4, 13]), b"abc9".to_vec()).unwrap();
    assert_eq!(m.step(), Status::Running);
    assert!(m.switch);
    assert_eq!(m.token, b"abc9".to_vec());
    assert_eq!(m.cursor.pos, 4);
}

#[test]
fn identifier_on_empty_input_fails() {
    let mut m = VM::new(image(&[4, 13]), b"   ".to_vec()).unwrap();
    assert_eq!(m.step(), Status::Running);
    assert!(!m.switch);
}

#[test]
fn unterminated_string_fails() {
    let mut m = VM::new(image(&[14, 13]), b" 'abc".to_vec()).unwrap();
    assert_eq!(m.step(), Status::Running);
    assert!(!m.switch);
    assert_eq!(m.cursor.bytes[m.cursor.pos..].to_vec(), b"'abc".to_vec());
}

#[test]
fn empty_literal_always_matches() {
    let mut m = VM::new(image(&[2, 0, 13]), b"  xyz".to_vec()).unwrap();
    m.token = b"old".to_vec();
    assert_eq!(m.step(), Status::Running);
    assert!(m.switch);
    assert_eq!(m.token, Vec::<u8>::new());
    assert_eq!(m.cursor.bytes[m.cursor.pos..].to_vec(), b"xyz".to_vec());
}

#[test]
fn empty_quoted_string_token() {
    let mut m = VM::new(image(&[14, 13]), b" '' rest".to_vec()).unwrap();
    assert_eq!(m.step(), Status::Running);
    assert!(m.switch);
    assert_eq!(m.token, b"''".to_vec());
    assert_eq!(m.cursor.bytes[m.cursor.pos..].to_vec(), b" rest".to_vec());
}

#[test]
fn out_with_empty_line() {
    assert_eq!(exec(&[8, 13], ""), (0, b"\t\n".to_vec()));
    assert_eq!(exec(&[16, 8, 13], ""), (0, b"\n".to_vec()));
}

#[test]
fn label_flag_lasts_one_out() {
    let code = [16, 16, 6, b'L', 0, 8, 6, b'x', 0, 8, 13];
    assert_eq!(exec(&code, ""), (0, b"L \n\tx \n".to_vec()));
}

#[test]
fn set_twice_is_set_once() {
    let mut m = VM::new(image(&[11, 11, 13]), vec![]).unwrap();
    assert_eq!(m.step(), Status::Running);
    assert!(m.switch);
    assert_eq!(m.step(), Status::Running);
    assert!(m.switch);
    assert_eq!(m.ip, 2);
}

#[test]
fn b_and_adr_jump_alike() {
    for op in [1u8, 19] {
        let code = [op, 12, 0, 0, 0, 0, 0, 0, 0, 0, 0, 0, 13];
        let mut m = VM::new(image(&code), vec![]).unwrap();
        assert_eq!(m.step(), Status::Running);
        assert_eq!(m.ip, 12);
    }
}

#[test]
fn conditional_branches() {
    // BF 20 with the switch off jumps; BT 20 falls through.
    let code = [3, 20, 0, 0, 0, 0, 0, 0, 0, 10, 20, 0, 0, 0, 0, 0, 0, 0];
    let mut m = VM::new(image(&code), vec![]).unwrap();
    assert_eq!(m.step(), Status::Running);
    assert_eq!(m.ip, 20);
    m.ip = 9;
    assert_eq!(m.step(), Status::Running);
    assert_eq!(m.ip, 18);
    m.switch = true;
    m.ip = 0;
    assert_eq!(m.step(), Status::Running);
    assert_eq!(m.ip, 9);
    assert_eq!(m.step(), Status::Running);
    assert_eq!(m.ip, 20);
}

#[test]
fn address_is_little_endian() {
    let code = [1, 0x34, 0x12, 0, 0, 0, 0, 0, 0];
    let mut m = VM::new(image(&code), vec![]).unwrap();
    assert_eq!(m.step(), Status::Running);
    assert_eq!(m.ip, 0x1234);
    assert_eq!(m.step(), Status::Fault(meta2vm::machine::Fault::IpOutOfRange));
}

#[test]
fn num_is_a_miss() {
    let mut m = VM::new(image(&[11, 15, 13]), b" 42".to_vec()).unwrap();
    m.step();
    assert_eq!(m.step(), Status::Running);
    assert!(!m.switch);
    assert_eq!(m.cursor.pos, 0);
}

#[test]
fn ci_and_cl_build_the_line() {
    let code = [4, 6, b'=', 0, 7, 8, 13];
    assert_eq!(exec(&code, "x1"), (0, b"\t= x1 \n".to_vec()));
}
