use shell_vars::xudt::{command, Parties, Payment, XudtIssueToAcp, XudtTransferToMultiAcp};

fn parties<'a>(privkey_path: &'a str) -> Parties<'a> {
    Parties {
        owner: "ckt1owner",
        xudt_rce_args: "0xabcd",
        cell_deps_path: "/tmp/t/cell_deps.json",
        privkey_path,
    }
}

#[test]
fn issue_to_one_account() {
    let payments = XudtIssueToAcp::first_issue("ckt1acp1");
    assert_eq!(payments, vec![Payment { to: "ckt1acp1".to_string(), amount: 300 }]);
    assert_eq!(
        command(&parties("/tmp/t/owner"), None, &payments),
        "udt issue --owner ckt1owner --xudt-rce-args 0xabcd --udt-to ckt1acp1:300 --to-acp-address --cell-deps /tmp/t/cell_deps.json --privkey-path /tmp/t/owner"
    );
}

#[test]
fn issue_to_two_accounts() {
    let payments = XudtIssueToAcp::second_issue("ckt1acp1", "ckt1acp2");
    assert_eq!(
        command(&parties("/tmp/t/owner"), None, &payments),
        "udt issue --owner ckt1owner --xudt-rce-args 0xabcd --udt-to ckt1acp1:200 --udt-to ckt1acp2:400 --to-acp-address --cell-deps /tmp/t/cell_deps.json --privkey-path /tmp/t/owner"
    );
    assert_eq!(XudtIssueToAcp::expected(), (500, 400));
}

#[test]
fn transfer_to_two_accounts() {
    let issued = XudtTransferToMultiAcp::issue("ckt1acp1");
    assert_eq!(issued, vec![Payment { to: "ckt1acp1".to_string(), amount: 300 }]);
    let payments = XudtTransferToMultiAcp::transfer("ckt1acp0", "ckt1acp2");
    assert_eq!(
        command(&parties("/tmp/t/account1"), Some("ckt1acp1"), &payments),
        "udt transfer --owner ckt1owner --xudt-rce-args 0xabcd --sender ckt1acp1 --udt-to ckt1acp0:150 --udt-to ckt1acp2:100 --to-acp-address --cell-deps /tmp/t/cell_deps.json --privkey-path /tmp/t/account1"
    );
    assert_eq!(XudtTransferToMultiAcp::expected(), (150, 50, 100));
}

#[test]
fn command_without_payments() {
    assert_eq!(
        command(&parties("k"), None, &Vec::new()),
        "udt issue --owner ckt1owner --xudt-rce-args 0xabcd --to-acp-address --cell-deps /tmp/t/cell_deps.json --privkey-path k"
    );
}

#[test]
fn payment_amounts_in_decimal() {
    let payments = vec![Payment { to: "a".to_string(), amount: u64::MAX }, Payment { to: "b".to_string(), amount: 0 }];
    assert_eq!(
        command(&parties("k"), Some("s"), &payments),
        "udt transfer --owner ckt1owner --xudt-rce-args 0xabcd --sender s --udt-to a:18446744073709551615 --udt-to b:0 --to-acp-address --cell-deps /tmp/t/cell_deps.json --privkey-path k"
    );
}
