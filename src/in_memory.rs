//! An account store held in memory: the accounts in the order of their
//! creation. Exclusive access for the operations that change it comes from
//! `&mut self`; a caller that shares the store between tasks wraps it in a
//! reader/writer lock.

use vstd::prelude::*;

use crate::account::{views, Account, AccountView, CreateAccountRequest, UpdateAccountRequest};
use crate::classification::AccountType;
use crate::repository::{
    account_result_view, create_outcome, has_code, has_id, index_of_code, index_of_id, is_listing,
    ledger_wf, selection, soft_delete_outcome, sorted_by_display_order, unit_result_view,
    update_outcome, RepositoryError, RepositoryResult,
};
use crate::system::{current_timestamp, fresh_account_id, AccountId, Timestamp};

verus! {

broadcast use vstd::seq_lib::group_to_multiset_ensures;

/// An account store held in memory.
pub struct InMemoryAccountRepository {
    accounts: Vec<Account>,
}

impl View for InMemoryAccountRepository {
    type V = Seq<AccountView>;

    closed spec fn view(&self) -> Seq<AccountView> {
        views(self.accounts@)
    }
}

/// Inserting an element into a sequence adds it to the multiset of its
/// elements.
proof fn lemma_insert_to_multiset<A>(s: Seq<A>, k: int, x: A)
    requires
        0 <= k <= s.len(),
    ensures
        s.insert(k, x).to_multiset() =~= s.to_multiset().insert(x),
{
    let t = s.insert(k, x);
    assert(t.remove(k) =~= s);
    assert(t[k] == x);
    assert(t.contains(x));
    assert(t.to_multiset().count(x) > 0);
}

/// Selecting from a sequence with one more element.
proof fn lemma_selection_push(s: Seq<AccountView>, x: AccountView, t: Option<AccountType>)
    ensures
        selection(s.push(x), t) == (if t is None || x.account_type == t->Some_0 {
            selection(s, t).push(x)
        } else {
            selection(s, t)
        }),
{
    reveal(Seq::filter);
    assert(s.push(x).drop_last() =~= s);
    assert(s.push(x).last() == x);
}

/// The first position in a sorted sequence whose display order exceeds `d`.
fn insertion_point(r: &Vec<Account>, d: i32) -> (k: usize)
    requires
        sorted_by_display_order(views(r@)),
    ensures
        k <= r@.len(),
        forall|j: int| 0 <= j < k ==> (#[trigger] r@[j]).display_order <= d,
        forall|j: int| k <= j < r@.len() ==> (#[trigger] r@[j]).display_order > d,
{
    let mut k: usize = 0;
    while k < r.len() && r[k].display_order <= d
        invariant
            k <= r@.len(),
            sorted_by_display_order(views(r@)),
            forall|j: int| 0 <= j < k ==> (#[trigger] r@[j]).display_order <= d,
        decreases r.len() - k,
    {
        k = k + 1;
    }
    if k < r.len() {
        assert forall|j: int| k <= j < r@.len() implies (#[trigger] r@[j]).display_order > d by {
            if j > k {
                assert(views(r@)[k as int].display_order <= views(r@)[j].display_order);
            }
        }
    }
    k
}

/// Copies of the selected accounts, ordered by display order; accounts with
/// equal display order keep the order of `accounts`.
fn sorted_selection(accounts: &Vec<Account>, t: Option<AccountType>) -> (r: Vec<Account>)
    ensures
        is_listing(views(accounts@), t, views(r@)),
{
    let mut r: Vec<Account> = Vec::new();
    let mut i: usize = 0;
    while i < accounts.len()
        invariant
            i <= accounts@.len(),
            sorted_by_display_order(views(r@)),
            views(r@).to_multiset() == selection(views(accounts@).take(i as int), t).to_multiset(),
        decreases accounts.len() - i,
    {
        let a = &accounts[i];
        let keep = match t {
            Some(t) => a.account_type == t,
            None => true,
        };
        proof {
            assert(views(accounts@).take(i as int + 1) =~= views(accounts@).take(i as int).push(a@));
            lemma_selection_push(views(accounts@).take(i as int), a@, t);
        }
        if keep {
            let k = insertion_point(&r, a.display_order);
            let ghost before = views(r@);
            r.insert(k, a.duplicate());
            proof {
                assert(views(r@) =~= before.insert(k as int, a@));
                lemma_insert_to_multiset(before, k as int, a@);
                assert forall|p: int, q: int| 0 <= p < q < views(r@).len() implies #[trigger] views(
                    r@,
                )[p].display_order <= #[trigger] views(r@)[q].display_order by {
                    if q < k {
                        assert(before[p].display_order <= before[q].display_order);
                    } else if q == k {
                        assert(views(r@)[p] == before[p]);
                    } else if p < k {
                        assert(views(r@)[q] == before[q - 1]);
                        assert(views(r@)[p] == before[p]);
                    } else if p == k {
                        assert(views(r@)[q] == before[q - 1]);
                    } else {
                        assert(before[p - 1].display_order <= before[q - 1].display_order);
                    }
                }
            }
        }
        i = i + 1;
    }
    assert(views(accounts@).take(accounts@.len() as int) =~= views(accounts@));
    r
}

impl InMemoryAccountRepository {
    #[verifier::type_invariant]
    spec fn inv(self) -> bool {
        ledger_wf(views(self.accounts@))
    }

    /// An empty store.
    pub fn new() -> (r: Self)
        ensures
            r@ == Seq::<AccountView>::empty(),
    {
        let r = InMemoryAccountRepository { accounts: Vec::new() };
        assert(views(r.accounts@) =~= Seq::<AccountView>::empty());
        r
    }

    /// The position of the account with identifier `id`.
    fn position_of_id(&self, id: AccountId) -> (r: Option<usize>)
        ensures
            match r {
                Some(i) => i < self@.len() && i == index_of_id(self@, id) && has_id(self@, id),
                None => !has_id(self@, id),
            },
    {
        proof {
            use_type_invariant(self);
        }
        let mut i: usize = 0;
        while i < self.accounts.len()
            invariant
                i <= self.accounts@.len(),
                forall|j: int| 0 <= j < i ==> (#[trigger] self.accounts@[j]).id != id,
            decreases self.accounts.len() - i,
        {
            if self.accounts[i].id == id {
                proof {
                    assert(self@[i as int].id == id);
                    let c = index_of_id(self@, id);
                    assert(self@[c].id == id);
                    use_type_invariant(self);
                    if c != i as int {
                        assert(self@[c].id != self@[i as int].id);
                    }
                }
                return Some(i);
            }
            i = i + 1;
        }
        proof {
            assert forall|j: int| 0 <= j < self@.len() implies #[trigger] self@[j].id != id by {
                assert(self@[j] == self.accounts@[j]@);
            }
        }
        None
    }

    /// The position of the account with code `code`.
    fn position_of_code(&self, code: &String) -> (r: Option<usize>)
        ensures
            match r {
                Some(i) => i < self@.len() && i == index_of_code(self@, code@) && has_code(
                    self@,
                    code@,
                ),
                None => !has_code(self@, code@),
            },
    {
        proof {
            use_type_invariant(self);
        }
        let mut i: usize = 0;
        while i < self.accounts.len()
            invariant
                i <= self.accounts@.len(),
                forall|j: int| 0 <= j < i ==> (#[trigger] self.accounts@[j]).code@ != code@,
            decreases self.accounts.len() - i,
        {
            if self.accounts[i].code == *code {
                proof {
                    assert(self@[i as int].code == code@);
                    let c = index_of_code(self@, code@);
                    assert(self@[c].code == code@);
                    use_type_invariant(self);
                    if c != i as int {
                        assert(self@[c].code != self@[i as int].code);
                    }
                }
                return Some(i);
            }
            i = i + 1;
        }
        proof {
            assert forall|j: int| 0 <= j < self@.len() implies #[trigger] self@[j].code != code@ by {
                assert(self@[j] == self.accounts@[j]@);
            }
        }
        None
    }

    /// Creates an account with the given identifier and creation instant.
    pub fn create_with_identity(
        &mut self,
        request: CreateAccountRequest,
        id: AccountId,
        now: Timestamp,
    ) -> (r: RepositoryResult<Account>)
        ensures
            create_outcome(old(self)@, request, id, now, account_result_view(r), final(self)@),
            ledger_wf(final(self)@),
    {
        proof {
            use_type_invariant(&*self);
        }
        if self.position_of_code(&request.code).is_some() {
            return Err(RepositoryError::DuplicateCode(request.code));
        }
        if self.position_of_id(id).is_some() {
            return Err(
                RepositoryError::DatabaseError(String::from_str("account identifier already in use")),
            );
        }
        let display_order = match request.display_order {
            Some(d) => d,
            None => 0,
        };
        let account = Account::with_identity(
            id,
            now,
            request.code,
            request.name,
            request.category,
            request.description,
            display_order,
        );
        let result = account.duplicate();
        let ghost before = self@;
        let mut accounts: Vec<Account> = Vec::new();
        std::mem::swap(&mut accounts, &mut self.accounts);
        accounts.push(account);
        proof {
            assert(views(accounts@) =~= before.push(result@));
            assert forall|j: int| 0 <= j < before.len() implies #[trigger] before[j].code != result@.code
                && before[j].id != result@.id by {}
        }
        self.accounts = accounts;
        Ok(result)
    }

    /// Creates an account with a fresh random identifier, stamped with the
    /// current instant.
    pub fn create(&mut self, request: CreateAccountRequest) -> (r: RepositoryResult<Account>)
        ensures
            exists|id: AccountId, now: Timestamp|
                create_outcome(old(self)@, request, id, now, account_result_view(r), final(self)@),
            ledger_wf(final(self)@),
    {
        let id = fresh_account_id();
        let now = current_timestamp();
        let ghost req = request;
        let r = self.create_with_identity(request, id, now);
        assert(create_outcome(old(self)@, req, id, now, account_result_view(r), self@));
        r
    }

    /// The account with identifier `id`, if any.
    pub fn find_by_id(&self, id: AccountId) -> (r: RepositoryResult<Option<Account>>)
        ensures
            match r {
                Ok(Some(a)) => has_id(self@, id) && a@ == self@[index_of_id(self@, id)],
                Ok(None) => !has_id(self@, id),
                Err(_) => false,
            },
    {
        match self.position_of_id(id) {
            Some(i) => Ok(Some(self.accounts[i].duplicate())),
            None => Ok(None),
        }
    }

    /// The account with code `code`, if any.
    pub fn find_by_code(&self, code: &str) -> (r: RepositoryResult<Option<Account>>)
        ensures
            match r {
                Ok(Some(a)) => has_code(self@, code@) && a@ == self@[index_of_code(self@, code@)],
                Ok(None) => !has_code(self@, code@),
                Err(_) => false,
            },
    {
        let key = String::from_str(code);
        match self.position_of_code(&key) {
            Some(i) => Ok(Some(self.accounts[i].duplicate())),
            None => Ok(None),
        }
    }

    /// Every account, ordered by display order.
    pub fn find_all(&self) -> (r: RepositoryResult<Vec<Account>>)
        ensures
            r matches Ok(v) && is_listing(self@, None, views(v@)),
    {
        Ok(sorted_selection(&self.accounts, None))
    }

    /// The accounts of one type, ordered by display order.
    pub fn find_by_type(&self, account_type: AccountType) -> (r: RepositoryResult<Vec<Account>>)
        ensures
            r matches Ok(v) && is_listing(self@, Some(account_type), views(v@)),
    {
        Ok(sorted_selection(&self.accounts, Some(account_type)))
    }

    /// Whether an account, active or not, has code `code`.
    pub fn exists_by_code(&self, code: &str) -> (r: RepositoryResult<bool>)
        ensures
            r matches Ok(b) && b == has_code(self@, code@),
    {
        let key = String::from_str(code);
        Ok(self.position_of_code(&key).is_some())
    }
    /// Replaces the account at position `i` by `account`, which keeps its
    /// identifier, code and category and has the type of its category.
    fn replace_at(&mut self, i: usize, account: Account)
        requires
            i < old(self)@.len(),
            account@.id == old(self)@[i as int].id,
            account@.code == old(self)@[i as int].code,
            account@.category == old(self)@[i as int].category,
            account@.account_type == old(self)@[i as int].account_type,
        ensures
            final(self)@ == old(self)@.update(i as int, account@),
            ledger_wf(final(self)@),
    {
        proof {
            use_type_invariant(&*self);
        }
        let ghost before = self@;
        let ghost a = account@;
        let mut accounts: Vec<Account> = Vec::new();
        std::mem::swap(&mut accounts, &mut self.accounts);
        accounts.set(i, account);
        proof {
            let after = views(accounts@);
            assert(after =~= before.update(i as int, a));
            assert forall|p: int, q: int|
                0 <= p < after.len() && 0 <= q < after.len() && p != q implies #[trigger] after[p].id
                != #[trigger] after[q].id && after[p].code != after[q].code by {
                assert(after[p].id == before[p].id && after[p].code == before[p].code);
                assert(after[q].id == before[q].id && after[q].code == before[q].code);
            }
            assert forall|p: int| 0 <= p < after.len() implies crate::account::type_matches_category(
                #[trigger] after[p],
            ) by {
                assert(after[p].account_type == before[p].account_type);
                assert(after[p].category == before[p].category);
            }
        }
        self.accounts = accounts;
    }

    /// Overwrites the present fields of the account with identifier `id`,
    /// with `now` as the clock's reading.
    pub fn update_at(&mut self, id: AccountId, request: UpdateAccountRequest, now: Timestamp) -> (r:
        RepositoryResult<Account>)
        ensures
            update_outcome(old(self)@, id, request, now, account_result_view(r), final(self)@),
            ledger_wf(final(self)@),
    {
        proof {
            use_type_invariant(&*self);
        }
        let i = match self.position_of_id(id) {
            Some(i) => i,
            None => {
                return Err(RepositoryError::NotFound(id));
            },
        };
        let mut account = self.accounts[i].duplicate();
        if let Some(name) = request.name {
            account.name = name;
        }
        if let Some(description) = request.description {
            account.description = Some(description);
        }
        if let Some(display_order) = request.display_order {
            account.display_order = display_order;
        }
        if let Some(is_active) = request.is_active {
            account.is_active = is_active;
        }
        if account.updated_at <= now {
            account.updated_at = now;
        }
        let result = account.duplicate();
        self.replace_at(i, account);
        Ok(result)
    }

    /// Overwrites the present fields of the account with identifier `id`,
    /// stamped with the current instant.
    pub fn update(&mut self, id: AccountId, request: UpdateAccountRequest) -> (r: RepositoryResult<
        Account,
    >)
        ensures
            exists|now: Timestamp|
                update_outcome(old(self)@, id, request, now, account_result_view(r), final(self)@),
            !has_id(old(self)@, id) ==> (r matches Err(RepositoryError::NotFound(n)) && n == id),
            ledger_wf(final(self)@),
    {
        let now = current_timestamp();
        let ghost req = request;
        let r = self.update_at(id, request, now);
        assert(update_outcome(old(self)@, id, req, now, account_result_view(r), self@));
        r
    }

    /// Deactivates the account with identifier `id`, with `now` as the
    /// clock's reading.
    pub fn soft_delete_at(&mut self, id: AccountId, now: Timestamp) -> (r: RepositoryResult<()>)
        ensures
            soft_delete_outcome(old(self)@, id, now, unit_result_view(r), final(self)@),
            ledger_wf(final(self)@),
    {
        proof {
            use_type_invariant(&*self);
        }
        let i = match self.position_of_id(id) {
            Some(i) => i,
            None => {
                return Err(RepositoryError::NotFound(id));
            },
        };
        let mut account = self.accounts[i].duplicate();
        account.is_active = false;
        if account.updated_at <= now {
            account.updated_at = now;
        }
        self.replace_at(i, account);
        Ok(())
    }

    /// Deactivates the account with identifier `id`, stamped with the current
    /// instant. The account stays readable and its code stays taken.
    pub fn soft_delete(&mut self, id: AccountId) -> (r: RepositoryResult<()>)
        ensures
            exists|now: Timestamp| soft_delete_outcome(old(self)@, id, now, unit_result_view(r), final(self)@),
            !has_id(old(self)@, id) ==> (r matches Err(RepositoryError::NotFound(n)) && n == id),
            ledger_wf(final(self)@),
    {
        let now = current_timestamp();
        let r = self.soft_delete_at(id, now);
        assert(soft_delete_outcome(old(self)@, id, now, unit_result_view(r), self@));
        r
    }
}

impl Default for InMemoryAccountRepository {
    fn default() -> (r: Self)
        ensures
            r@ == Seq::<AccountView>::empty(),
    {
        InMemoryAccountRepository::new()
    }
}

} // verus!
