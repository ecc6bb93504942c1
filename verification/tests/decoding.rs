use lxc_rust::decoder::decode;
use lxc_rust::decoder::split_records;
use lxc_rust::decoder::Decoded;
use lxc_rust::executor::ExecutionOutcome;

fn records_of(o: ExecutionOutcome) -> Vec<Vec<u8>> {
    match decode(&o).unwrap() {
        Decoded::Records(rs) => rs,
        Decoded::Raw(_) => panic!("line decoding always yields records"),
    }
}

fn outcome_with_stdout(stdout: &[u8]) -> ExecutionOutcome {
    ExecutionOutcome { exit_code: 0, stdout: stdout.to_vec(), stderr: Vec::new() }
}

#[test]
fn terminated_lines_decode_with_a_final_empty_record() {
    let rs = records_of(outcome_with_stdout(b"c1\nc2\n"));
    assert_eq!(rs, vec![b"c1".to_vec(), b"c2".to_vec(), b"".to_vec()]);
}

#[test]
fn empty_output_decodes_to_one_empty_record() {
    let rs = records_of(outcome_with_stdout(b""));
    assert_eq!(rs, vec![b"".to_vec()]);
}

#[test]
fn unterminated_last_line_is_kept() {
    let rs = records_of(outcome_with_stdout(b"a\nb"));
    assert_eq!(rs, vec![b"a".to_vec(), b"b".to_vec()]);
}

#[test]
fn joining_the_records_restores_the_bytes() {
    let input = b"NAME,STATE\nweb,RUNNING\n\ndb,STOPPED".to_vec();
    let rs = split_records(&input);
    let joined: Vec<u8> = rs.join(&10u8);
    assert_eq!(joined, input);
}
