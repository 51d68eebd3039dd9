use ledger_node::prover::{
    parse_env_args, parse_u64, post_body_bytes, proof_summary_bytes, u64_to_dec_bytes, EnvArgError,
    InputArgs,
};

fn input_args() -> InputArgs {
    InputArgs {
        nonce_ex: 122,
        nonce_len: 1,
        address: "aleo1n6utz6c8gtgqp4xfkm03ckf4n9fupuv3jf0feea9ggt547skasxq423ajy".to_string(),
        min_proof_target: 100,
    }
}

#[test]
fn parse_u64_reads_decimal_text() {
    assert_eq!(parse_u64("122"), Some(122));
    assert_eq!(parse_u64("0"), Some(0));
    assert_eq!(parse_u64("00100"), Some(100));
    assert_eq!(parse_u64("10011"), Some(10011));
    assert_eq!(parse_u64("18446744073709551615"), Some(u64::MAX));
    assert_eq!(parse_u64("18446744073709551616"), None);
    assert_eq!(parse_u64("184467440737095516160"), None);
    assert_eq!(parse_u64(""), None);
    assert_eq!(parse_u64("12a"), None);
    assert_eq!(parse_u64("-5"), None);
    assert_eq!(parse_u64(" 5"), None);
}

#[test]
fn env_args_assemble_in_order() {
    let ok = parse_env_args(
        Some("https://127.0.0.1:9084/api/v1/computing/cp/receive/ubi".to_string()),
        Some("10011".to_string()),
        Some("1".to_string()),
        Some("aleo-proof".to_string()),
        Some("ubi-task-10011".to_string()),
        Some(input_args()),
    )
    .unwrap();
    assert_eq!(
        ok.receive_proof_url,
        "https://127.0.0.1:9084/api/v1/computing/cp/receive/ubi"
    );
    assert_eq!(ok.task_id, 10011);
    assert_eq!(ok.task_type, 1);
    assert_eq!(ok.zk_type, "aleo-proof");
    assert_eq!(ok.name_space, "ubi-task-10011");
    assert_eq!(ok.input_params.nonce_ex, 122);
    assert_eq!(ok.input_params.nonce_len, 1);
    assert_eq!(
        ok.input_params.address,
        "aleo1n6utz6c8gtgqp4xfkm03ckf4n9fupuv3jf0feea9ggt547skasxq423ajy"
    );
    assert_eq!(ok.input_params.min_proof_target, 100);
}

#[test]
fn env_args_report_first_missing_variable() {
    let some = |s: &str| Some(s.to_string());
    assert_eq!(
        parse_env_args(None, some("1"), some("1"), some("a"), some("b"), Some(input_args()))
            .unwrap_err(),
        EnvArgError::MissingReceiveProofUrl
    );
    assert_eq!(
        parse_env_args(some("u"), None, some("1"), some("a"), some("b"), Some(input_args()))
            .unwrap_err(),
        EnvArgError::MissingTaskId
    );
    assert_eq!(
        parse_env_args(some("u"), some("x1"), some("1"), some("a"), some("b"), Some(input_args()))
            .unwrap_err(),
        EnvArgError::InvalidTaskId
    );
    assert_eq!(
        parse_env_args(some("u"), some("1"), None, some("a"), some("b"), Some(input_args()))
            .unwrap_err(),
        EnvArgError::MissingTaskType
    );
    assert_eq!(
        parse_env_args(some("u"), some("1"), some(""), some("a"), some("b"), Some(input_args()))
            .unwrap_err(),
        EnvArgError::InvalidTaskType
    );
    assert_eq!(
        parse_env_args(some("u"), some("1"), some("2"), None, some("b"), Some(input_args()))
            .unwrap_err(),
        EnvArgError::MissingZkType
    );
    assert_eq!(
        parse_env_args(some("u"), some("1"), some("2"), some("a"), None, Some(input_args()))
            .unwrap_err(),
        EnvArgError::MissingNameSpace
    );
    assert_eq!(
        parse_env_args(some("u"), some("1"), some("2"), some("a"), some("b"), None).unwrap_err(),
        EnvArgError::MissingInputParams
    );
}

#[test]
fn dec_bytes_write_decimal_text() {
    assert_eq!(u64_to_dec_bytes(0), b"0".to_vec());
    assert_eq!(u64_to_dec_bytes(7), b"7".to_vec());
    assert_eq!(u64_to_dec_bytes(10), b"10".to_vec());
    assert_eq!(u64_to_dec_bytes(10011), b"10011".to_vec());
    assert_eq!(
        u64_to_dec_bytes(u64::MAX),
        b"18446744073709551615".to_vec()
    );
    // What is written reads back as the number it came from.
    let text = u64_to_dec_bytes(2882303761517117440);
    assert_eq!(
        parse_u64(std::str::from_utf8(&text).unwrap()),
        Some(2882303761517117440)
    );
}

#[test]
fn proof_summary_matches_reference_format() {
    let task_id = 10011u64;
    let nonce = 2882303761517117440u64;
    let solution = "puzzle1cryng056kcer4duyaxu68uc3w6hsxsajs0wrwu0xepgsqffsx6rm5pk3t0m9a2yq63pnsr7jw64qz9zdwf6";
    let proof = "proof-bytes";
    let target = 100u64;
    let built = proof_summary_bytes(task_id, nonce, solution, proof, target);
    let expected = format!(
        "task_id:{},nonce:{},solution:{},proof:{},target:{}",
        task_id, nonce, solution, proof, target
    );
    assert_eq!(built, expected.into_bytes());
}

#[test]
fn post_body_matches_reference_format() {
    let task_id = 10011u64;
    let task_type = 1u64;
    let json_proof = "task_id:10011,nonce:7,solution:s,proof:p,target:100";
    let zk_type = "aleo-proof";
    let name_space = "ubi-task-10011";
    let built = post_body_bytes(
        task_id,
        task_type,
        json_proof.as_bytes(),
        zk_type,
        name_space,
    );
    let expected = format!(
        r#"
        {{
            "task_id": "{}",
            "task_type": "{}",
            "proof": "{}",
            "zk_type": "{}",
            "name_space": "{}"
        }}
        "#,
        task_id, task_type, json_proof, zk_type, name_space
    );
    assert_eq!(built, expected.into_bytes());
}
