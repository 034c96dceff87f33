//! The records the bot talks about, as plain values: ids, amounts of money
//! and the small enumerations the forms offer as buttons.

use vstd::prelude::*;

use crate::text::{chars_of, range_is};

verus! {

/// An amount of money in centavos; negative means money going out.
#[derive(Clone, Copy, Debug, PartialEq, Eq, Hash, Structural)]
pub struct Cents(pub i64);

impl Cents {
    pub fn new(value: i64) -> (amount: Cents)
        ensures
            amount.0 == value,
    {
        Cents(value)
    }

    pub fn zero() -> (amount: Cents)
        ensures
            amount.0 == 0,
    {
        Cents(0)
    }

    pub fn value(self) -> (value: i64)
        ensures
            value == self.0,
    {
        self.0
    }

    pub fn is_positive(self) -> (positive: bool)
        ensures
            positive == (self.0 > 0),
    {
        self.0 > 0
    }
}

/// Id of a category; the value of its UUID.
#[derive(Clone, Copy, Debug, PartialEq, Eq, Hash, Structural)]
pub struct CategoryId(pub u128);

#[derive(Clone, Copy, Debug, PartialEq, Eq, Hash, Structural)]
pub struct AccountId(pub u128);

#[derive(Clone, Copy, Debug, PartialEq, Eq, Hash, Structural)]
pub struct GoalId(pub u128);

#[derive(Clone, Copy, Debug, PartialEq, Eq, Hash, Structural)]
pub struct CardId(pub u128);

#[derive(Clone, Copy, Debug, PartialEq, Eq, Hash, Structural)]
pub struct InvoiceId(pub u128);

#[derive(Clone, Copy, Debug, PartialEq, Eq, Hash, Structural)]
pub struct RecurrenceId(pub u128);

#[derive(Clone, Copy, Debug, PartialEq, Eq, Hash, Structural)]
pub struct EntryId(pub u128);

#[derive(Clone, Copy, Debug, PartialEq, Eq, Hash, Structural)]
pub struct PurchaseId(pub u128);

/// Id of a flow in progress; also its idempotency key.
#[derive(Clone, Copy, Debug, PartialEq, Eq, Hash, Structural)]
pub struct DraftId(pub u128);

#[derive(Clone, Copy, Debug, PartialEq, Eq, Hash, Structural)]
pub struct MemberId(pub u128);

/// What kind of account holds the money.
#[derive(Clone, Copy, Debug, PartialEq, Eq, Hash, Structural)]
pub enum AccountKind {
    Checking,
    Savings,
    Cash,
    /// The pot behind a savings goal.
    Pot,
}

/// The code of each value in button payloads.
pub open spec fn account_kind_code(value: AccountKind) -> Seq<char> {
    match value {
        AccountKind::Checking => "checking"@,
        AccountKind::Savings => "savings"@,
        AccountKind::Cash => "cash"@,
        AccountKind::Pot => "pot"@,
    }
}

/// The value whose code is `code`.
pub open spec fn account_kind_named(code: Seq<char>) -> Option<AccountKind> {
    if code == "checking"@ {
        Some(AccountKind::Checking)
    } else if code == "savings"@ {
        Some(AccountKind::Savings)
    } else if code == "cash"@ {
        Some(AccountKind::Cash)
    } else if code == "pot"@ {
        Some(AccountKind::Pot)
    } else {
        None
    }
}

/// Each code names its own value.
pub proof fn lemma_account_kind_codes(value: AccountKind)
    ensures
        account_kind_named(account_kind_code(value)) == Some(value),
{
    reveal_strlit("checking");
    reveal_strlit("savings");
    reveal_strlit("cash");
    reveal_strlit("pot");
    match value {
        AccountKind::Checking => {
            assert("checking"@.len() != "savings"@.len());
            assert("checking"@.len() != "cash"@.len());
            assert("checking"@.len() != "pot"@.len());
        },
        AccountKind::Savings => {
            assert("savings"@.len() != "checking"@.len());
            assert("savings"@.len() != "cash"@.len());
            assert("savings"@.len() != "pot"@.len());
        },
        AccountKind::Cash => {
            assert("cash"@.len() != "checking"@.len());
            assert("cash"@.len() != "savings"@.len());
            assert("cash"@.len() != "pot"@.len());
        },
        AccountKind::Pot => {
            assert("pot"@.len() != "checking"@.len());
            assert("pot"@.len() != "savings"@.len());
            assert("pot"@.len() != "cash"@.len());
        },
    }
}

impl AccountKind {
    pub fn all() -> (values: Vec<AccountKind>)
        ensures
            values@ == seq![AccountKind::Checking, AccountKind::Savings, AccountKind::Cash, AccountKind::Pot],
    {
        vec![AccountKind::Checking, AccountKind::Savings, AccountKind::Cash, AccountKind::Pot]
    }

    pub fn as_str(self) -> (code: &'static str)
        ensures
            code@ == account_kind_code(self),
    {
        match self {
            AccountKind::Checking => "checking",
            AccountKind::Savings => "savings",
            AccountKind::Cash => "cash",
            AccountKind::Pot => "pot",
        }
    }

    /// The value whose code is `chars[from..to]`.
    pub fn from_code_in(chars: &Vec<char>, from: usize, to: usize) -> (value: Option<AccountKind>)
        requires
            from <= to <= chars@.len(),
        ensures
            value == account_kind_named(chars@.subrange(from as int, to as int)),
    {
        if range_is(chars, from, to, "checking") {
            Some(AccountKind::Checking)
        } else if range_is(chars, from, to, "savings") {
            Some(AccountKind::Savings)
        } else if range_is(chars, from, to, "cash") {
            Some(AccountKind::Cash)
        } else if range_is(chars, from, to, "pot") {
            Some(AccountKind::Pot)
        } else {
            None
        }
    }

    /// The value whose code is `code`.
    pub fn from_code(code: &str) -> (value: Option<AccountKind>)
        ensures
            value == account_kind_named(code@),
    {
        let chars = chars_of(code);
        proof {
            assert(chars@.subrange(0, chars@.len() as int) =~= code@);
        }
        AccountKind::from_code_in(&chars, 0, chars.len())
    }

    /// Accounts money is spent from or lands in; pots are not.
    pub fn is_spendable(self) -> (spendable: bool)
        ensures
            spendable == (self != AccountKind::Pot),
    {
        !matches!(self, AccountKind::Pot)
    }
}

/// Whether a category groups spending or income.
#[derive(Clone, Copy, Debug, PartialEq, Eq, Hash, Structural)]
pub enum CategoryKind {
    Expense,
    Income,
}

/// The code of each value in button payloads.
pub open spec fn category_kind_code(value: CategoryKind) -> Seq<char> {
    match value {
        CategoryKind::Expense => "expense"@,
        CategoryKind::Income => "income"@,
    }
}

/// The value whose code is `code`.
pub open spec fn category_kind_named(code: Seq<char>) -> Option<CategoryKind> {
    if code == "expense"@ {
        Some(CategoryKind::Expense)
    } else if code == "income"@ {
        Some(CategoryKind::Income)
    } else {
        None
    }
}

/// Each code names its own value.
pub proof fn lemma_category_kind_codes(value: CategoryKind)
    ensures
        category_kind_named(category_kind_code(value)) == Some(value),
{
    reveal_strlit("expense");
    reveal_strlit("income");
    match value {
        CategoryKind::Expense => {
            assert("expense"@.len() != "income"@.len());
        },
        CategoryKind::Income => {
            assert("income"@.len() != "expense"@.len());
        },
    }
}

impl CategoryKind {
    pub fn all() -> (values: Vec<CategoryKind>)
        ensures
            values@ == seq![CategoryKind::Expense, CategoryKind::Income],
    {
        vec![CategoryKind::Expense, CategoryKind::Income]
    }

    pub fn as_str(self) -> (code: &'static str)
        ensures
            code@ == category_kind_code(self),
    {
        match self {
            CategoryKind::Expense => "expense",
            CategoryKind::Income => "income",
        }
    }

    /// The value whose code is `chars[from..to]`.
    pub fn from_code_in(chars: &Vec<char>, from: usize, to: usize) -> (value: Option<CategoryKind>)
        requires
            from <= to <= chars@.len(),
        ensures
            value == category_kind_named(chars@.subrange(from as int, to as int)),
    {
        if range_is(chars, from, to, "expense") {
            Some(CategoryKind::Expense)
        } else if range_is(chars, from, to, "income") {
            Some(CategoryKind::Income)
        } else {
            None
        }
    }

    /// The value whose code is `code`.
    pub fn from_code(code: &str) -> (value: Option<CategoryKind>)
        ensures
            value == category_kind_named(code@),
    {
        let chars = chars_of(code);
        proof {
            assert(chars@.subrange(0, chars@.len() as int) =~= code@);
        }
        CategoryKind::from_code_in(&chars, 0, chars.len())
    }
}

/// Whether a recurring entry is money coming in or going out.
#[derive(Clone, Copy, Debug, PartialEq, Eq, Hash, Structural)]
pub enum RecurrenceKind {
    Income,
    Expense,
}

/// The code of each value in button payloads.
pub open spec fn recurrence_kind_code(value: RecurrenceKind) -> Seq<char> {
    match value {
        RecurrenceKind::Income => "income"@,
        RecurrenceKind::Expense => "expense"@,
    }
}

/// The value whose code is `code`.
pub open spec fn recurrence_kind_named(code: Seq<char>) -> Option<RecurrenceKind> {
    if code == "income"@ {
        Some(RecurrenceKind::Income)
    } else if code == "expense"@ {
        Some(RecurrenceKind::Expense)
    } else {
        None
    }
}

/// Each code names its own value.
pub proof fn lemma_recurrence_kind_codes(value: RecurrenceKind)
    ensures
        recurrence_kind_named(recurrence_kind_code(value)) == Some(value),
{
    reveal_strlit("income");
    reveal_strlit("expense");
    match value {
        RecurrenceKind::Income => {
            assert("income"@.len() != "expense"@.len());
        },
        RecurrenceKind::Expense => {
            assert("expense"@.len() != "income"@.len());
        },
    }
}

impl RecurrenceKind {
    pub fn all() -> (values: Vec<RecurrenceKind>)
        ensures
            values@ == seq![RecurrenceKind::Income, RecurrenceKind::Expense],
    {
        vec![RecurrenceKind::Income, RecurrenceKind::Expense]
    }

    pub fn as_str(self) -> (code: &'static str)
        ensures
            code@ == recurrence_kind_code(self),
    {
        match self {
            RecurrenceKind::Income => "income",
            RecurrenceKind::Expense => "expense",
        }
    }

    /// The value whose code is `chars[from..to]`.
    pub fn from_code_in(chars: &Vec<char>, from: usize, to: usize) -> (value: Option<RecurrenceKind>)
        requires
            from <= to <= chars@.len(),
        ensures
            value == recurrence_kind_named(chars@.subrange(from as int, to as int)),
    {
        if range_is(chars, from, to, "income") {
            Some(RecurrenceKind::Income)
        } else if range_is(chars, from, to, "expense") {
            Some(RecurrenceKind::Expense)
        } else {
            None
        }
    }

    /// The value whose code is `code`.
    pub fn from_code(code: &str) -> (value: Option<RecurrenceKind>)
        ensures
            value == recurrence_kind_named(code@),
    {
        let chars = chars_of(code);
        proof {
            assert(chars@.subrange(0, chars@.len() as int) =~= code@);
        }
        RecurrenceKind::from_code_in(&chars, 0, chars.len())
    }
}

/// Whether a recurring entry is recorded by itself or asks first.
#[derive(Clone, Copy, Debug, PartialEq, Eq, Hash, Structural)]
pub enum RecurrenceMode {
    Auto,
    Confirm,
}

/// The code of each value in button payloads.
pub open spec fn recurrence_mode_code(value: RecurrenceMode) -> Seq<char> {
    match value {
        RecurrenceMode::Auto => "auto"@,
        RecurrenceMode::Confirm => "confirm"@,
    }
}

/// The value whose code is `code`.
pub open spec fn recurrence_mode_named(code: Seq<char>) -> Option<RecurrenceMode> {
    if code == "auto"@ {
        Some(RecurrenceMode::Auto)
    } else if code == "confirm"@ {
        Some(RecurrenceMode::Confirm)
    } else {
        None
    }
}

/// Each code names its own value.
pub proof fn lemma_recurrence_mode_codes(value: RecurrenceMode)
    ensures
        recurrence_mode_named(recurrence_mode_code(value)) == Some(value),
{
    reveal_strlit("auto");
    reveal_strlit("confirm");
    match value {
        RecurrenceMode::Auto => {
            assert("auto"@.len() != "confirm"@.len());
        },
        RecurrenceMode::Confirm => {
            assert("confirm"@.len() != "auto"@.len());
        },
    }
}

impl RecurrenceMode {
    pub fn all() -> (values: Vec<RecurrenceMode>)
        ensures
            values@ == seq![RecurrenceMode::Auto, RecurrenceMode::Confirm],
    {
        vec![RecurrenceMode::Auto, RecurrenceMode::Confirm]
    }

    pub fn as_str(self) -> (code: &'static str)
        ensures
            code@ == recurrence_mode_code(self),
    {
        match self {
            RecurrenceMode::Auto => "auto",
            RecurrenceMode::Confirm => "confirm",
        }
    }

    /// The value whose code is `chars[from..to]`.
    pub fn from_code_in(chars: &Vec<char>, from: usize, to: usize) -> (value: Option<RecurrenceMode>)
        requires
            from <= to <= chars@.len(),
        ensures
            value == recurrence_mode_named(chars@.subrange(from as int, to as int)),
    {
        if range_is(chars, from, to, "auto") {
            Some(RecurrenceMode::Auto)
        } else if range_is(chars, from, to, "confirm") {
            Some(RecurrenceMode::Confirm)
        } else {
            None
        }
    }

    /// The value whose code is `code`.
    pub fn from_code(code: &str) -> (value: Option<RecurrenceMode>)
        ensures
            value == recurrence_mode_named(code@),
    {
        let chars = chars_of(code);
        proof {
            assert(chars@.subrange(0, chars@.len() as int) =~= code@);
        }
        RecurrenceMode::from_code_in(&chars, 0, chars.len())
    }
}

} // verus!
