use ton_core::controllers::get_address_balance;
use ton_core::controllers::get_address_info;
use ton_core::controllers::post_address_check;
use ton_core::controllers::post_address_create;

fn response<D: std::fmt::Debug>(outcome: Result<D, String>) -> String {
    match outcome {
        Ok(data) => format!("ok {:?}", data),
        Err(error) => format!("error {}", error),
    }
}

#[test]
fn created_address_is_answered() {
    assert_eq!(post_address_create(Ok(3u8), |a| a as u32 + 1, response), "ok 4");
    let failed: Result<u8, String> = Err("no key".to_string());
    assert_eq!(post_address_create(failed, |a| a as u32 + 1, response), "error no key");
}

#[test]
fn checked_address_is_answered() {
    assert_eq!(post_address_check(Ok(true), |valid| (valid, 'v'), response), "ok (true, 'v')");
    let failed: Result<bool, String> = Err("bad address".to_string());
    assert_eq!(post_address_check(failed, |valid| valid, response), "error bad address");
}

#[test]
fn balance_is_answered_from_both_parts() {
    assert_eq!(get_address_balance(Ok((1u8, 20u16)), |a, b| a as u16 + b, response), "ok 21");
    let failed: Result<(u8, u16), String> = Err("unknown".to_string());
    assert_eq!(get_address_balance(failed, |a, b| a as u16 + b, response), "error unknown");
}

#[test]
fn address_info_is_answered() {
    assert_eq!(get_address_info(Ok(5u8), |info| vec![info], response), "ok [5]");
    let failed: Result<u8, String> = Err("unknown".to_string());
    assert_eq!(get_address_info(failed, |info| vec![info], response), "error unknown");
}
