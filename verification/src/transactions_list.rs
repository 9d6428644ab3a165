use vstd::prelude::*;

verus! {

/// What the list shows of one wallet transaction: the amounts received and
/// sent in satoshi, the fee where known, and the height of the block that
/// confirmed it, if any.
#[derive(Debug, Clone, Copy, PartialEq, Eq)]
pub struct TransactionDetails {
    pub received: u64,
    pub sent: u64,
    pub fee: Option<u64>,
    pub confirmation_height: Option<u32>,
}

/// One line of the list.
#[derive(Debug, Clone, Copy, PartialEq, Eq)]
pub enum TransactionRow {
    /// More was received than sent; `amount` is the difference.
    Received { amount: u64, block: Option<u32> },
    /// More was sent than received; `amount` is the difference.
    Sent { amount: u64, fee: Option<u64>, block: Option<u32> },
    /// As much was received as sent.
    Null { block: Option<u32> },
}

/// What the list shows.
#[derive(Debug, PartialEq, Eq)]
pub enum TransactionsView {
    /// The wallet has no transactions.
    Empty,
    /// One row for each transaction shown, in the order of the list.
    Rows(Vec<TransactionRow>),
}

/// A list of wallet transactions, shown whole or up to a number of them.
#[derive(Debug)]
pub struct TransactionsList {
    list: Vec<TransactionDetails>,
    take: Option<usize>,
}

/// The row that stands for `tx`.
pub open spec fn row_of(tx: TransactionDetails) -> TransactionRow {
    if tx.received > tx.sent {
        TransactionRow::Received {
            amount: (tx.received - tx.sent) as u64,
            block: tx.confirmation_height,
        }
    } else if tx.received < tx.sent {
        TransactionRow::Sent {
            amount: (tx.sent - tx.received) as u64,
            fee: tx.fee,
            block: tx.confirmation_height,
        }
    } else {
        TransactionRow::Null { block: tx.confirmation_height }
    }
}

/// The first `take` transactions of `list`, or all of them where there is no
/// limit or fewer than that.
pub open spec fn shown(list: Seq<TransactionDetails>, take: Option<usize>) -> Seq<
    TransactionDetails,
> {
    match take {
        Some(limit) => if limit < list.len() {
            list.subrange(0, limit as int)
        } else {
            list
        },
        None => list,
    }
}

/// Computes the row that stands for `tx`.
pub fn row(tx: &TransactionDetails) -> (row: TransactionRow)
    ensures
        row == row_of(*tx),
{
    if tx.received > tx.sent {
        TransactionRow::Received { amount: tx.received - tx.sent, block: tx.confirmation_height }
    } else if tx.received < tx.sent {
        TransactionRow::Sent {
            amount: tx.sent - tx.received,
            fee: tx.fee,
            block: tx.confirmation_height,
        }
    } else {
        TransactionRow::Null { block: tx.confirmation_height }
    }
}

impl TransactionsList {
    /// The transactions in the list, shown or not.
    pub closed spec fn items(&self) -> Seq<TransactionDetails> {
        self.list@
    }

    /// The limit on the number of transactions shown, if any.
    pub closed spec fn limit(&self) -> Option<usize> {
        self.take
    }

    /// A list that shows all of `list`.
    pub fn new(list: Vec<TransactionDetails>) -> (created: Self)
        ensures
            created.items() == list@,
            created.limit() == None::<usize>,
    {
        Self { list, take: None }
    }

    /// The same list, showing at most `num` transactions.
    pub fn take(self, num: usize) -> (limited: Self)
        ensures
            limited.items() == self.items(),
            limited.limit() == Some(num),
    {
        Self { list: self.list, take: Some(num) }
    }

    /// The transactions that are shown.
    pub fn list(self) -> (visible: Vec<TransactionDetails>)
        ensures
            visible@ == shown(self.items(), self.limit()),
    {
        let mut list = self.list;
        match self.take {
            Some(limit) => {
                if limit < list.len() {
                    list.truncate(limit);
                }
            },
            None => {},
        }
        list
    }

    /// What the list shows: nothing but a notice where the wallet has no
    /// transactions at all, else one row for each transaction shown.
    pub fn view(self) -> (view: TransactionsView)
        ensures
            self.items().len() == 0 ==> view is Empty,
            self.items().len() > 0 ==> (view matches TransactionsView::Rows(rows) && rows@
                == shown(self.items(), self.limit()).map_values(|tx: TransactionDetails| row_of(tx))),
    {
        if self.list.is_empty() {
            return TransactionsView::Empty;
        }
        let ghost expected = shown(self.items(), self.limit()).map_values(
            |tx: TransactionDetails| row_of(tx),
        );
        let visible = self.list();
        let mut rows: Vec<TransactionRow> = Vec::new();
        let mut index: usize = 0;
        while index < visible.len()
            invariant
                index <= visible.len(),
                expected == visible@.map_values(|tx: TransactionDetails| row_of(tx)),
                rows@ == expected.subrange(0, index as int),
            decreases visible.len() - index,
        {
            rows.push(row(&visible[index]));
            index = index + 1;
            assert(rows@ =~= expected.subrange(0, index as int));
        }
        assert(rows@ =~= expected);
        TransactionsView::Rows(rows)
    }
}

} // verus!
