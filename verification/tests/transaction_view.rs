use ckb_time_scripts::transaction::{
    args_bound_to_input, bytes_equal, code_hash_in_inputs, Script, SysError,
};

fn script(code: u8, hash_type: u8, args: &[u8]) -> Script {
    Script {
        code_hash: vec![code; 32],
        hash_type,
        args: args.to_vec(),
    }
}

#[test]
fn bytes_equal_compares_length_and_every_byte() {
    assert!(bytes_equal(&vec![], &vec![]));
    assert!(bytes_equal(&vec![1, 2, 3], &vec![1, 2, 3]));
    assert!(!bytes_equal(&vec![1, 2, 3], &vec![1, 2]));
    assert!(!bytes_equal(&vec![1, 2], &vec![1, 2, 3]));
    assert!(!bytes_equal(&vec![1, 2, 3], &vec![1, 2, 4]));
    assert!(!bytes_equal(&vec![0, 2, 3], &vec![1, 2, 3]));
    assert!(!bytes_equal(&vec![], &vec![0]));
}

#[test]
fn scripts_are_equal_where_all_three_parts_are() {
    let a = script(1, 0, &[7, 8]);
    assert!(a == script(1, 0, &[7, 8]));
    assert!(a != script(2, 0, &[7, 8]));
    assert!(a != script(1, 1, &[7, 8]));
    assert!(a != script(1, 0, &[7, 9]));
    assert!(a != script(1, 0, &[7]));
    assert_eq!(a.clone(), a);
}

#[test]
fn code_hash_scan_finds_the_code_whatever_the_args() {
    let own = script(1, 0, &[1]);
    assert_eq!(code_hash_in_inputs(&own, &vec![]), Ok(false));
    assert_eq!(code_hash_in_inputs(&own, &vec![Ok(None)]), Ok(false));
    assert_eq!(
        code_hash_in_inputs(&own, &vec![Ok(None), Ok(Some(script(2, 0, &[1])))]),
        Ok(false)
    );
    assert_eq!(
        code_hash_in_inputs(&own, &vec![Ok(Some(script(1, 0, &[1])))]),
        Ok(true)
    );
    assert_eq!(
        code_hash_in_inputs(&own, &vec![Ok(Some(script(1, 1, &[9, 9])))]),
        Ok(true)
    );
    assert_eq!(
        code_hash_in_inputs(
            &own,
            &vec![Ok(None), Ok(Some(script(2, 0, &[]))), Ok(Some(script(1, 0, &[])))]
        ),
        Ok(true)
    );
}

#[test]
fn code_hash_scan_compares_the_whole_hash() {
    let own = script(1, 0, &[]);
    let mut nearly = script(1, 0, &[]);
    nearly.code_hash[31] = 2;
    assert_eq!(code_hash_in_inputs(&own, &vec![Ok(Some(nearly))]), Ok(false));
    let mut short = script(1, 0, &[]);
    short.code_hash.pop();
    assert_eq!(code_hash_in_inputs(&own, &vec![Ok(Some(short))]), Ok(false));
}

#[test]
fn code_hash_scan_stops_at_the_first_answer_that_decides() {
    let own = script(1, 0, &[]);
    assert_eq!(code_hash_in_inputs(&own, &vec![Err(SysError)]), Err(SysError));
    assert_eq!(
        code_hash_in_inputs(&own, &vec![Ok(None), Err(SysError), Ok(Some(script(1, 0, &[])))]),
        Err(SysError)
    );
    assert_eq!(
        code_hash_in_inputs(
            &own,
            &vec![Ok(Some(script(2, 0, &[]))), Ok(Some(script(1, 0, &[]))), Err(SysError)]
        ),
        Ok(true)
    );
}

#[test]
fn args_are_bound_to_any_consumed_outpoint() {
    let first = vec![1u8; 36];
    let second = vec![2u8; 36];
    let out_points = vec![Ok(first.clone()), Ok(second.clone())];
    assert_eq!(args_bound_to_input(&first, &out_points), Ok(true));
    assert_eq!(args_bound_to_input(&second, &out_points), Ok(true));
    assert_eq!(args_bound_to_input(&vec![3u8; 36], &out_points), Ok(false));
    assert_eq!(args_bound_to_input(&vec![1u8; 35], &out_points), Ok(false));
    assert_eq!(args_bound_to_input(&vec![], &out_points), Ok(false));
    assert_eq!(args_bound_to_input(&first, &vec![]), Ok(false));
}

#[test]
fn args_scan_stops_at_the_first_answer_that_decides() {
    let first = vec![1u8; 36];
    let second = vec![2u8; 36];
    assert_eq!(args_bound_to_input(&first, &vec![Err(SysError)]), Err(SysError));
    assert_eq!(
        args_bound_to_input(&second, &vec![Ok(first.clone()), Err(SysError), Ok(second.clone())]),
        Err(SysError)
    );
    assert_eq!(
        args_bound_to_input(&first, &vec![Ok(first.clone()), Err(SysError)]),
        Ok(true)
    );
    assert_eq!(
        args_bound_to_input(&second, &vec![Ok(first.clone()), Ok(second.clone()), Err(SysError)]),
        Ok(true)
    );
}
