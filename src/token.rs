//! The token client's account book, and the choice of what each operation
//! of a batch asks of the token contract.

use vstd::prelude::*;
use crate::keys::{address_of, parse_address, parse_secret_key, secret_key_of, Address, SecretKey};
use crate::text::same_text;

verus! {

/// The number of confirmations that a transfer waits for.
pub const TRANSFER_CONFIRMATIONS: usize = 2;

/// An account that can sign transfers: its address and its secret key.
#[derive(Clone, Copy, Debug, PartialEq, Eq)]
pub struct Account {
    pub address: Address,
    pub pk: SecretKey,
}

/// One entry of a batch: the contract method to use and its arguments.
#[derive(Clone, Debug, PartialEq, Eq)]
pub struct Operation {
    pub method_name: String,
    pub from: Option<Address>,
    pub to: Option<Address>,
    pub num_tokens: Option<u64>,
}

/// What an operation asks of the contract.
#[derive(Clone, Debug, PartialEq, Eq)]
pub enum Action {
    /// Query `totalSupply`.
    QueryTotalSupply,
    /// Query `balanceOf` for one owner.
    QueryBalanceOf { owner: Address },
    /// Send `transfer`, signed by one of the book's accounts, and wait for
    /// the given number of confirmations.
    SignedTransfer { signer: Account, to: Address, num_tokens: u64, confirmations: usize },
    /// A transfer from an address that no account of the book holds.
    NoSuchSender,
    /// A method that the client does not offer.
    Unsupported { method_name: String },
}

/// An operation that lacks an argument that its method needs.
#[derive(Clone, Copy, Debug, PartialEq, Eq)]
pub enum ExecuteError {
    MissingFrom,
    MissingTo,
    MissingNumTokens,
}

/// Configuration text that does not read as an address or a key.
#[derive(Clone, Debug, PartialEq, Eq)]
pub enum ConfigError {
    InvalidContractAddress,
    InvalidAccountAddress { label: String },
    InvalidSecretKey { label: String },
}

/// An account book: labels with their accounts, in order of insertion.
pub type Book = Seq<(Seq<char>, Account)>;

/// No two entries of a book share a label.
pub open spec fn labels_unique(book: Book) -> bool {
    forall|i: int, j: int| 0 <= i < book.len() && 0 <= j < book.len() && i != j
        ==> #[trigger] book[i].0 != #[trigger] book[j].0
}

/// Some entry of the book has this label.
pub open spec fn has_label(book: Book, label: Seq<char>) -> bool {
    exists|i: int| 0 <= i < book.len() && #[trigger] book[i].0 == label
}

/// The book after a label is given an account: the entry of that label is
/// replaced where there is one, and a new entry goes at the end otherwise.
pub open spec fn inserted(book: Book, label: Seq<char>, account: Account) -> Book {
    if has_label(book, label) {
        book.map_values(|e: (Seq<char>, Account)| if e.0 == label { (label, account) } else { e })
    } else {
        book.push((label, account))
    }
}

/// Some account of the book has this address.
pub open spec fn holds_address(book: Book, address: Seq<u8>) -> bool {
    exists|i: int| 0 <= i < book.len() && (#[trigger] book[i].1).address@ == address
}

/// The account is one of the book's, and has this address.
pub open spec fn is_account_at(book: Book, account: Account, address: Seq<u8>) -> bool {
    &&& account.address@ == address
    &&& exists|i: int| 0 <= i < book.len() && #[trigger] book[i].1 == account
}

/// What a `transfer` operation comes to, against a book. With an empty book
/// it comes to `NoSuchSender` before any argument is looked at.
pub open spec fn transfer_outcome(book: Book, op: Operation, r: Result<Action, ExecuteError>) -> bool {
    if book.len() == 0 {
        r == Ok::<Action, ExecuteError>(Action::NoSuchSender)
    } else {
        match op.from {
            None => r == Err::<Action, ExecuteError>(ExecuteError::MissingFrom),
            Some(from) => if !holds_address(book, from@) {
                r == Ok::<Action, ExecuteError>(Action::NoSuchSender)
            } else {
                match (op.to, op.num_tokens) {
                    (None, _) => r == Err::<Action, ExecuteError>(ExecuteError::MissingTo),
                    (Some(_), None) => r == Err::<Action, ExecuteError>(ExecuteError::MissingNumTokens),
                    (Some(to), Some(n)) => match r {
                        Ok(Action::SignedTransfer { signer, to: t, num_tokens, confirmations }) => {
                            &&& is_account_at(book, signer, from@)
                            &&& t == to
                            &&& num_tokens == n
                            &&& confirmations == TRANSFER_CONFIRMATIONS
                        },
                        _ => false,
                    },
                }
            },
        }
    }
}

/// The token client: the contract's address and the accounts it can sign
/// with.
pub struct GolemToken {
    pub address: Address,
    pub accounts: Vec<(String, Account)>,
}

impl GolemToken {
    /// The account book, labels as character sequences.
    pub open spec fn book(&self) -> Book {
        self.accounts@.map_values(|e: (String, Account)| (e.0@, e.1))
    }

    /// The book's labels are unique.
    pub open spec fn wf(&self) -> bool {
        labels_unique(self.book())
    }

    /// A client of the contract at the address that the text names, with an
    /// empty account book.
    pub fn new(contract_address: &str) -> (r: Result<GolemToken, ConfigError>)
        ensures
            match r {
                Ok(t) => {
                    &&& address_of(contract_address@) == Some(t.address@)
                    &&& t.wf()
                    &&& t.book().len() == 0
                },
                Err(e) => {
                    &&& address_of(contract_address@) is None
                    &&& e == ConfigError::InvalidContractAddress
                },
            },
    {
        match parse_address(contract_address) {
            Some(address) => {
                let t = GolemToken { address, accounts: Vec::new() };
                assert(t.book() =~= Seq::<(Seq<char>, Account)>::empty());
                Ok(t)
            },
            None => Err(ConfigError::InvalidContractAddress),
        }
    }

    /// Gives a label an account, as a map does: the account of a label that
    /// is in the book is replaced, and a new label goes at the end.
    pub fn insert_account(&mut self, label: String, account: Account)
        requires
            old(self).wf(),
        ensures
            final(self).wf(),
            final(self).address == old(self).address,
            final(self).book() == inserted(old(self).book(), label@, account),
    {
        let ghost before = self.book();
        let ghost address = self.address;
        let n = self.accounts.len();
        let mut i: usize = 0;
        while i < n
            invariant
                n == self.accounts.len(),
                i <= n,
                self.book() == before,
                self.address == address,
                address == old(self).address,
                before == old(self).book(),
                labels_unique(before),
                forall|j: int| 0 <= j < i ==> #[trigger] before[j].0 != label@,
            decreases n - i,
        {
            if self.accounts[i].0 == label {
                let ghost l = label@;
                assert(before[i as int].0 == l);
                self.accounts.set(i, (label, account));
                proof {
                    assert(has_label(before, l));
                    assert forall|j: int| 0 <= j < before.len() && j != i implies before[j].0 != l by {
                        assert(before[i as int].0 == l);
                    }
                    assert(self.book() =~= inserted(before, l, account));
                }
                return;
            }
            i = i + 1;
        }
        let ghost l = label@;
        self.accounts.push((label, account));
        proof {
            assert(!has_label(before, l));
            assert(self.book() =~= inserted(before, l, account));
        }
    }

    /// The account that a label names, if the book has the label.
    pub fn account(&self, label: &str) -> (r: Option<Account>)
        requires
            self.wf(),
        ensures
            match r {
                Some(a) => exists|i: int| 0 <= i < self.book().len() && #[trigger] self.book()[i] == (label@, a),
                None => !has_label(self.book(), label@),
            },
    {
        let n = self.accounts.len();
        let mut i: usize = 0;
        while i < n
            invariant
                n == self.accounts.len(),
                i <= n,
                forall|j: int| 0 <= j < i ==> #[trigger] self.book()[j].0 != label@,
            decreases n - i,
        {
            if same_text(self.accounts[i].0.as_str(), label) {
                assert(self.book()[i as int] == (label@, self.accounts[i as int].1));
                return Some(self.accounts[i].1);
            }
            i = i + 1;
        }
        None
    }

    /// Registers the two signing accounts, `A1` and `A2`, from the text of
    /// their addresses and keys. The texts are read in order, and the first
    /// that does not read leaves the book as it was.
    pub fn initialize(
        &mut self,
        account1_address: &str,
        account1_pk: &str,
        account2_address: &str,
        account2_pk: &str,
    ) -> (r: Result<(), ConfigError>)
        requires
            old(self).wf(),
        ensures
            final(self).wf(),
            final(self).address == old(self).address,
            match r {
                Ok(_) => exists|a1: Account, a2: Account|
                    {
                        &&& address_of(account1_address@) == Some(a1.address@)
                        &&& secret_key_of(account1_pk@) == Some(a1.pk@)
                        &&& address_of(account2_address@) == Some(a2.address@)
                        &&& secret_key_of(account2_pk@) == Some(a2.pk@)
                        &&& final(self).book() == inserted(
                            inserted(old(self).book(), "A1"@, a1),
                            "A2"@,
                            a2,
                        )
                    },
                Err(ConfigError::InvalidAccountAddress { label }) => {
                    &&& final(self).book() == old(self).book()
                    &&& {
                        ||| label@ == "A1"@ && address_of(account1_address@) is None
                        ||| label@ == "A2"@ && address_of(account1_address@) is Some
                            && secret_key_of(account1_pk@) is Some
                            && address_of(account2_address@) is None
                    }
                },
                Err(ConfigError::InvalidSecretKey { label }) => {
                    &&& final(self).book() == old(self).book()
                    &&& {
                        ||| label@ == "A1"@ && address_of(account1_address@) is Some
                            && secret_key_of(account1_pk@) is None
                        ||| label@ == "A2"@ && address_of(account1_address@) is Some
                            && secret_key_of(account1_pk@) is Some
                            && address_of(account2_address@) is Some
                            && secret_key_of(account2_pk@) is None
                    }
                },
                Err(ConfigError::InvalidContractAddress) => false,
            },
    {
        let address1 = match parse_address(account1_address) {
            Some(a) => a,
            None => return Err(ConfigError::InvalidAccountAddress { label: String::from_str("A1") }),
        };
        let pk1 = match parse_secret_key(account1_pk) {
            Some(k) => k,
            None => return Err(ConfigError::InvalidSecretKey { label: String::from_str("A1") }),
        };
        let address2 = match parse_address(account2_address) {
            Some(a) => a,
            None => return Err(ConfigError::InvalidAccountAddress { label: String::from_str("A2") }),
        };
        let pk2 = match parse_secret_key(account2_pk) {
            Some(k) => k,
            None => return Err(ConfigError::InvalidSecretKey { label: String::from_str("A2") }),
        };
        let a1 = Account { address: address1, pk: pk1 };
        let a2 = Account { address: address2, pk: pk2 };
        self.insert_account(String::from_str("A1"), a1);
        self.insert_account(String::from_str("A2"), a2);
        Ok(())
    }

    /// What an operation asks of the contract, by its method name:
    /// `totalSupply`, `balanceOf` of the `from` address, or a `transfer`
    /// signed by the book's account of the `from` address; any other name is
    /// unsupported.
    pub fn execute(&self, operation: &Operation) -> (r: Result<Action, ExecuteError>)
        ensures
            operation.method_name@ == "totalSupply"@ ==> r == Ok::<Action, ExecuteError>(
                Action::QueryTotalSupply,
            ),
            operation.method_name@ == "balanceOf"@ ==> r == match operation.from {
                Some(owner) => Ok::<Action, ExecuteError>(Action::QueryBalanceOf { owner }),
                None => Err::<Action, ExecuteError>(ExecuteError::MissingFrom),
            },
            operation.method_name@ == "transfer"@ ==> transfer_outcome(
                self.book(),
                *operation,
                r,
            ),
            operation.method_name@ != "totalSupply"@ && operation.method_name@ != "balanceOf"@
                && operation.method_name@ != "transfer"@ ==> r == Ok::<Action, ExecuteError>(
                Action::Unsupported { method_name: operation.method_name },
            ),
    {
        proof {
            reveal_strlit("totalSupply");
            reveal_strlit("balanceOf");
            reveal_strlit("transfer");
            assert("totalSupply"@.len() == 11 && "balanceOf"@.len() == 9 && "transfer"@.len() == 8);
        }
        let name = operation.method_name.as_str();
        if same_text(name, "totalSupply") {
            Ok(Action::QueryTotalSupply)
        } else if same_text(name, "balanceOf") {
            match operation.from {
                Some(owner) => Ok(Action::QueryBalanceOf { owner }),
                None => Err(ExecuteError::MissingFrom),
            }
        } else if same_text(name, "transfer") {
            self.transfer(operation)
        } else {
            Ok(Action::Unsupported { method_name: operation.method_name.clone() })
        }
    }

    /// What a `transfer` operation comes to against this book.
    fn transfer(&self, operation: &Operation) -> (r: Result<Action, ExecuteError>)
        ensures
            transfer_outcome(self.book(), *operation, r),
    {
        if self.accounts.len() == 0 {
            return Ok(Action::NoSuchSender);
        }
        let from = match operation.from {
            Some(a) => a,
            None => return Err(ExecuteError::MissingFrom),
        };
        match self.find_account(&from) {
            None => Ok(Action::NoSuchSender),
            Some(signer) => match (operation.to, operation.num_tokens) {
                (None, _) => Err(ExecuteError::MissingTo),
                (Some(_), None) => Err(ExecuteError::MissingNumTokens),
                (Some(to), Some(num_tokens)) => Ok(
                    Action::SignedTransfer {
                        signer,
                        to,
                        num_tokens,
                        confirmations: TRANSFER_CONFIRMATIONS,
                    },
                ),
            },
        }
    }

    /// An account of the book with the given address, if there is one.
    pub fn find_account(&self, address: &Address) -> (r: Option<Account>)
        ensures
            match r {
                Some(a) => is_account_at(self.book(), a, address@),
                None => !holds_address(self.book(), address@),
            },
    {
        let n = self.accounts.len();
        let mut i: usize = 0;
        while i < n
            invariant
                n == self.accounts.len(),
                i <= n,
                forall|j: int| 0 <= j < i ==> (#[trigger] self.book()[j]).1.address@ != address@,
            decreases n - i,
        {
            if self.accounts[i].1.address.same_as(address) {
                assert(self.book()[i as int].1 == self.accounts[i as int].1);
                return Some(self.accounts[i].1);
            }
            i = i + 1;
        }
        None
    }

    /// The addresses of the book's accounts, in the book's order: those
    /// whose balances are watched.
    pub fn account_addresses(&self) -> (r: Vec<Address>)
        ensures
            r@ == self.book().map_values(|e: (Seq<char>, Account)| e.1.address),
    {
        let n = self.accounts.len();
        let mut r: Vec<Address> = Vec::new();
        let mut i: usize = 0;
        while i < n
            invariant
                n == self.accounts.len(),
                i <= n,
                r@ == self.book().take(i as int).map_values(|e: (Seq<char>, Account)| e.1.address),
            decreases n - i,
        {
            r.push(self.accounts[i].1.address);
            i = i + 1;
            assert(self.book().take(i as int) =~= self.book().take(i - 1).push(self.book()[i - 1]));
        }
        assert(self.book().take(n as int) =~= self.book());
        r
    }
}

} // verus!
