//! Two scenarios of issuing and transferring tokens to anyone-can-pay
//! addresses: the command lines that each sends, and the amounts that each
//! expects to find afterwards.

use vstd::prelude::*;
use crate::value::{decimal, decimal_text};

verus! {

/// So many tokens to an address.
#[derive(Clone, Debug, PartialEq)]
pub struct Payment {
    pub to: String,
    pub amount: u64,
}

/// What a command needs beside its payments.
pub struct Parties<'a> {
    pub owner: &'a str,
    pub xudt_rce_args: &'a str,
    pub cell_deps_path: &'a str,
    pub privkey_path: &'a str,
}

/// One payment as an option of a command.
pub open spec fn payment_text(to: Seq<char>, amount: nat) -> Seq<char> {
    " --udt-to "@ + to + ":"@ + decimal(amount)
}

/// The payments of a command as its options, in their order.
pub open spec fn payments_text(payments: Seq<Payment>) -> Seq<char>
    decreases payments.len(),
{
    if payments.len() == 0 {
        Seq::empty()
    } else {
        payments_text(payments.drop_last()) + payment_text(
            payments.last().to@,
            payments.last().amount as nat,
        )
    }
}

/// The sender of a transfer as an option of its command; nothing for an
/// issue, which has none.
pub open spec fn sender_text(sender: Option<&str>) -> Seq<char> {
    match sender {
        Some(address) => " --sender "@ + address@,
        None => Seq::empty(),
    }
}

/// The command line that issues tokens, or that transfers them where there
/// is a sender, to anyone-can-pay addresses.
pub open spec fn command_text(
    parties: Parties,
    sender: Option<&str>,
    payments: Seq<Payment>,
) -> Seq<char> {
    (if sender.is_some() {
        "udt transfer"@
    } else {
        "udt issue"@
    }) + " --owner "@ + parties.owner@ + " --xudt-rce-args "@ + parties.xudt_rce_args@
        + sender_text(sender) + payments_text(payments) + " --to-acp-address --cell-deps "@
        + parties.cell_deps_path@ + " --privkey-path "@ + parties.privkey_path@
}

/// Writes the command line that issues tokens, or that transfers them
/// where there is a sender.
pub fn command(parties: &Parties, sender: Option<&str>, payments: &Vec<Payment>) -> (line: String)
    ensures
        line@ == command_text(*parties, sender, payments@),
{
    let mut line = String::from_str(
        if sender.is_some() {
            "udt transfer"
        } else {
            "udt issue"
        },
    );
    line.append(" --owner ");
    line.append(parties.owner);
    line.append(" --xudt-rce-args ");
    line.append(parties.xudt_rce_args);
    match sender {
        Some(address) => {
            line.append(" --sender ");
            line.append(address);
        },
        None => {},
    }
    let ghost head = line@;
    assert(head + Seq::<char>::empty() == head);
    let mut i: usize = 0;
    while i < payments.len()
        invariant
            i <= payments.len(),
            line@ == head + payments_text(payments@.take(i as int)),
        decreases payments.len() - i,
    {
        assert(payments@.take(i + 1).drop_last() == payments@.take(i as int));
        let ghost start = line@;
        let amount = decimal_text(payments[i].amount);
        line.append(" --udt-to ");
        line.append(payments[i].to.as_str());
        line.append(":");
        line.append(amount.as_str());
        assert(line@ =~= start + payment_text(payments[i as int].to@, payments[i as int].amount as nat));
        i += 1;
    }
    assert(payments@.take(i as int) == payments@);
    line.append(" --to-acp-address --cell-deps ");
    line.append(parties.cell_deps_path);
    line.append(" --privkey-path ");
    line.append(parties.privkey_path);
    line
}

/// The owner issues tokens to one account, then to that account and a
/// second one.
pub struct XudtIssueToAcp;

impl XudtIssueToAcp {
    /// The first issue: 300 to the first account.
    pub fn first_issue(account1: &str) -> (payments: Vec<Payment>)
        ensures
            payments@.len() == 1,
            payments[0].to@ == account1@,
            payments[0].amount == 300,
    {
        vec![Payment { to: String::from_str(account1), amount: 300 }]
    }

    /// The second issue: 200 to the first account and 400 to the second.
    pub fn second_issue(account1: &str, account2: &str) -> (payments: Vec<Payment>)
        ensures
            payments@.len() == 2,
            payments[0].to@ == account1@,
            payments[0].amount == 200,
            payments[1].to@ == account2@,
            payments[1].amount == 400,
    {
        vec![
            Payment { to: String::from_str(account1), amount: 200 },
            Payment { to: String::from_str(account2), amount: 400 },
        ]
    }

    /// What the two accounts hold after both issues.
    pub fn expected() -> (amounts: (u64, u64))
        ensures
            amounts.0 == 300 + 200,
            amounts.1 == 400,
    {
        (500, 400)
    }
}

/// The owner issues tokens to one account, which transfers part of them to
/// the owner and to a second account.
pub struct XudtTransferToMultiAcp;

impl XudtTransferToMultiAcp {
    /// The issue: 300 to the first account.
    pub fn issue(account1: &str) -> (payments: Vec<Payment>)
        ensures
            payments@.len() == 1,
            payments[0].to@ == account1@,
            payments[0].amount == 300,
    {
        vec![Payment { to: String::from_str(account1), amount: 300 }]
    }

    /// The transfer from the first account: 150 to the owner and 100 to
    /// the second account.
    pub fn transfer(owner: &str, account2: &str) -> (payments: Vec<Payment>)
        ensures
            payments@.len() == 2,
            payments[0].to@ == owner@,
            payments[0].amount == 150,
            payments[1].to@ == account2@,
            payments[1].amount == 100,
    {
        vec![
            Payment { to: String::from_str(owner), amount: 150 },
            Payment { to: String::from_str(account2), amount: 100 },
        ]
    }

    /// What the owner, the first account and the second account hold after
    /// the transfer.
    pub fn expected() -> (amounts: (u64, u64, u64))
        ensures
            amounts.0 == 150,
            amounts.1 == 300 - 150 - 100,
            amounts.2 == 100,
    {
        (150, 50, 100)
    }
}

} // verus!
