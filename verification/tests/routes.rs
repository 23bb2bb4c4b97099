use cubefs_bond::bond::ClientConfig;
use cubefs_bond::commons::Res;
use cubefs_bond::errors::ErrorCode;
use cubefs_bond::io::{Action, DecodeError, IoError, ProgramStdout};
use cubefs_bond::routes::{
    bond_delete_request, bond_delete_response, bond_get_request, bond_get_response,
    bond_post_response, bond_post_setup, dev_markers, get_config_file, index,
};

fn io_error(display: &str, debug: &str) -> IoError {
    IoError { display: display.to_string(), debug: debug.to_string() }
}

fn stdout(s: &str) -> Result<ProgramStdout, IoError> {
    Ok(ProgramStdout::Text(s.to_string()))
}

fn not_utf8() -> Result<ProgramStdout, IoError> {
    Ok(ProgramStdout::NotUtf8(DecodeError {
        display: "invalid utf-8 sequence of 1 bytes from index 0".to_string(),
        debug: "FromUtf8Error { .. }".to_string(),
    }))
}

#[test]
fn index_text() {
    assert_eq!(
        index(),
        "three API: /mount /umount /ready\n        API  URI: /mount\n             BODY: {}\n\n    body is json, and for cubefs client config.json content\n"
    );
}

#[test]
fn get_route_checks_volume_name() {
    assert_eq!(bond_get_request(None).err(), Some("fail: volume_name missing".to_string()));
    assert_eq!(bond_get_request(Some(String::new())).err(), Some("fail: volume_name empty".to_string()));
    match bond_get_request(Some("test".to_string())) {
        Ok(Action::Run { program, args }) => {
            assert_eq!(program, "sh");
            assert_eq!(
                args,
                vec![
                    "-c".to_string(),
                    "ps aux|grep '/cfs/client/cfs-client -f -c /cfs/bond/test/config.json'|grep -v grep|wc -l".to_string()
                ]
            );
        }
        _ => panic!("expected a command"),
    }
}

#[test]
fn get_route_answers() {
    assert_eq!(bond_get_response("test", stdout("0\n")), "cfs-client not start");
    assert_eq!(bond_get_response("test", stdout(" 2 \n")), "OK");
    assert_eq!(bond_get_response("test", stdout("")), "OK");
    assert_eq!(
        bond_get_response("test", not_utf8()),
        "fail: parse shell output fail, invalid utf-8 sequence of 1 bytes from index 0"
    );
    assert_eq!(
        bond_get_response("t", Err(io_error("No such file or directory (os error 2)", "Os"))),
        "fail: start[ps aux|grep '/cfs/client/cfs-client -f -c /cfs/bond/t/config.json'|grep -v grep|wc -l] fail, output:No such file or directory (os error 2)\n"
    );
}

#[test]
fn delete_route_runs_umount_and_answers() {
    assert_eq!(bond_delete_request(None).err(), Some("fail: volume_name missing".to_string()));
    assert_eq!(bond_delete_request(Some(String::new())).err(), Some("fail: volume_name empty".to_string()));
    match bond_delete_request(Some("test".to_string())) {
        Ok(Action::Run { program, args }) => {
            assert_eq!(program, "sh");
            assert_eq!(args, vec!["-c".to_string(), "umount /cfs/mount/test".to_string()]);
        }
        _ => panic!("expected a command"),
    }
    assert_eq!(bond_delete_response("test", stdout("")), "OK");
    assert_eq!(
        bond_delete_response("test", not_utf8()),
        "fail: parse shell output fail, invalid utf-8 sequence of 1 bytes from index 0"
    );
    assert_eq!(
        bond_delete_response("test", Err(io_error("denied", "Os"))),
        "fail: start[ps aux|grep cfs-client |grep test|cut -d ' ' -f 2|xargs kill -9 && umount umount /cfs/mount/test] fail, output:denied\n"
    );
}

#[test]
fn post_route_before_startup() {
    assert_eq!(bond_post_setup(None).err(), Some("fail: body is empty".to_string()));
    assert_eq!(
        bond_post_setup(Some(Err("EOF while parsing a value at line 1 column 0".to_string()))).err(),
        Some("fail: parse body fail: EOF while parsing a value at line 1 column 0".to_string())
    );
    let config = ClientConfig::default();
    assert_eq!(bond_post_setup(Some(Ok(config))).err(), Some("fail: parse param, volName missing".to_string()));
    let mut config = ClientConfig::default();
    config.volName = Some("v".to_string());
    assert_eq!(bond_post_setup(Some(Ok(config))).err(), Some("fail: parse param, masterAddr missing".to_string()));
    let mut config = ClientConfig::default();
    config.volName = Some("v".to_string());
    config.masterAddr = Some("m".to_string());
    let bond = bond_post_setup(Some(Ok(config))).ok().unwrap();
    assert_eq!(bond.volume_name(), "v");
}

#[test]
fn post_route_answers() {
    assert_eq!(bond_post_response(Ok("OK,12".to_string())), "OK,12");
    assert_eq!(
        bond_post_response(Err(ErrorCode::E10007_CHMOD_FAIL("x".to_string()))),
        "fail: start client fail, E10007_CHMOD_FAIL(\"x\")"
    );
    assert_eq!(
        bond_post_response(Err(ErrorCode::E10001_IO_ERROR(io_error("d", "Os { code: 13 }")))),
        "fail: start client fail, E10001_IO_ERROR(Os { code: 13 })"
    );
}

#[test]
fn error_messages() {
    let e = |s: &str| io_error("shown", s);
    assert_eq!(ErrorCode::E10001_IO_ERROR(e("D")).to_string(), "10001:D");
    assert_eq!(ErrorCode::E10002_SERDE("m\"q".to_string(), "E".to_string()).to_string(), "10002: serde objet[\"m\\\"q\"] fail, E");
    assert_eq!(ErrorCode::E10003_MKDIRS_NEED_DIR("/a".to_string()).to_string(), "10003: mkdirs needs dir, but file[\"/a\"]");
    assert_eq!(ErrorCode::E10004_WRITE_FILE("/f".to_string(), e("D")).to_string(), "10004: write file[/f] fail, D");
    assert_eq!(ErrorCode::E10005("U".to_string()).to_string(), "10005: FromUtf8Error, U");
    assert_eq!(ErrorCode::E10006_EXEC_PROGRAM("p".to_string(), e("D")).to_string(), "10006: exec program[p] fail, D");
    assert_eq!(ErrorCode::E10007_CHMOD_FAIL("p".to_string()).to_string(), "10007: chmod fail p");
    assert_eq!(ErrorCode::E10002_SERDE("m".to_string(), "E".to_string()).debug_text(), "E10002_SERDE(\"m\", E)");
    assert_eq!(ErrorCode::E10003_MKDIRS_NEED_DIR("/a".to_string()).debug_text(), "E10003_MKDIRS_NEED_DIR(\"/a\")");
    assert_eq!(ErrorCode::E10005("U".to_string()).debug_text(), "E10005(U)");
}

#[test]
fn server_config_file_choice() {
    assert_eq!(dev_markers(), vec!["./cargo.toml".to_string(), "./vscode".to_string(), "./git".to_string()]);
    assert_eq!(get_config_file(&vec![true, true, true]), "build/conf/cubefs-bond.toml");
    assert_eq!(get_config_file(&vec![true, false, true]), "conf/cubefs-bond.toml");
    assert_eq!(get_config_file(&vec![false, false, false]), "conf/cubefs-bond.toml");
}

#[test]
fn default_answer_envelope() {
    let r: Res<u32> = Res::default();
    assert_eq!(r.code(), 0);
    assert_eq!(r.msg(), "OK");
    assert!(r.data().is_none());
}
