//! EVE SSO scope names, their code-point ordering, and an ordered set of scope names.

use vstd::prelude::*;

verus! {

pub const CHARACTER_ASSETS: &'static str = "esi-assets.read_assets.v1";
pub const CHARACTER_BLUEPRINTS: &'static str = "esi-characters.read_blueprints.v1";
pub const CHARACTER_CLONES: &'static str = "esi-clones.read_clones.v1";
pub const CHARACTER_CONTACTS: &'static str = "esi-characters.read_contacts.v1";
pub const CHARACTER_CONTACTS_WRITE: &'static str = "esi-characters.write_contacts.v1";
pub const CHARACTER_CONTRACTS: &'static str = "esi-contracts.read_character_contracts.v1";
pub const CHARACTER_IMPLANTS: &'static str = "esi-clones.read_implants.v1";
pub const CHARACTER_INDUSTRY_JOBS: &'static str = "esi-industry.read_character_jobs.v1";
pub const CHARACTER_KILLMAILS: &'static str = "esi-killmails.read_killmails.v1";
pub const CHARACTER_LOCATION: &'static str = "esi-location.read_location.v1";
pub const CHARACTER_MAIL: &'static str = "esi-mail.read_mail.v1";
pub const CHARACTER_MAIL_ORGANIZE: &'static str = "esi-mail.organize_mail.v1";
pub const CHARACTER_MAIL_SEND: &'static str = "esi-mail.send_mail.v1";
pub const CHARACTER_MINING: &'static str = "esi-industry.read_character_mining.v1";
pub const CHARACTER_NOTIFICATIONS: &'static str = "esi-characters.read_notifications.v1";
pub const CHARACTER_ONLINE: &'static str = "esi-location.read_online.v1";
pub const CHARACTER_ORDERS: &'static str = "esi-markets.read_character_orders.v1";
pub const CHARACTER_SEARCH: &'static str = "esi-search.search_structures.v1";
pub const CHARACTER_SHIP: &'static str = "esi-location.read_ship_type.v1";
pub const CHARACTER_SKILLQUEUE: &'static str = "esi-skills.read_skillqueue.v1";
pub const CHARACTER_SKILLS: &'static str = "esi-skills.read_skills.v1";
pub const CHARACTER_STANDINGS: &'static str = "esi-characters.read_standings.v1";
pub const CHARACTER_WALLET: &'static str = "esi-wallet.read_character_wallet.v1";
pub const UNIVERSE_STRUCTURES: &'static str = "esi-universe.read_structures.v1";

pub const CORPORATION_ASSETS: &'static str = "esi-assets.read_corporation_assets.v1";
pub const CORPORATION_BLUEPRINTS: &'static str = "esi-corporations.read_blueprints.v1";
pub const CORPORATION_CONTRACTS: &'static str = "esi-contracts.read_corporation_contracts.v1";
pub const CORPORATION_DIVISIONS: &'static str = "esi-corporations.read_divisions.v1";
pub const CORPORATION_INDUSTRY_JOBS: &'static str = "esi-industry.read_corporation_jobs.v1";
pub const CORPORATION_MEMBERS: &'static str = "esi-corporations.read_corporation_membership.v1";
pub const CORPORATION_MINING_EXTRACTIONS: &'static str = "esi-industry.read_corporation_mining.v1";
pub const CORPORATION_ROLES: &'static str = "esi-characters.read_corporation_roles.v1";
pub const CORPORATION_STRUCTURES: &'static str = "esi-corporations.read_structures.v1";
pub const CORPORATION_WALLET: &'static str = "esi-wallet.read_corporation_wallets.v1";

/// Code-point lexicographic order on texts, the order `Ord for str` uses.
pub open spec fn lex_lt(a: Seq<char>, b: Seq<char>) -> bool
    decreases a.len(),
{
    if a.len() == 0 {
        b.len() > 0
    } else if b.len() == 0 {
        false
    } else if a[0] < b[0] {
        true
    } else if a[0] == b[0] {
        lex_lt(a.drop_first(), b.drop_first())
    } else {
        false
    }
}

/// The views of a list of texts.
pub open spec fn views(v: Seq<&str>) -> Seq<Seq<char>> {
    v.map_values(|s: &str| s@)
}

/// Strictly increasing in code-point order, hence free of duplicates.
pub open spec fn strictly_sorted(v: Seq<Seq<char>>) -> bool {
    forall|i: int, j: int| 0 <= i < j < v.len() ==> lex_lt(#[trigger] v[i], #[trigger] v[j])
}

/// No text comes before itself.
pub proof fn lemma_lex_irreflexive(a: Seq<char>)
    ensures
        !lex_lt(a, a),
    decreases a.len(),
{
    if a.len() > 0 {
        lemma_lex_irreflexive(a.drop_first());
    }
}

/// Two texts are never each before the other.
pub proof fn lemma_lex_asymmetric(a: Seq<char>, b: Seq<char>)
    requires
        lex_lt(a, b),
    ensures
        !lex_lt(b, a),
    decreases a.len(),
{
    if a.len() > 0 && b.len() > 0 && a[0] == b[0] {
        lemma_lex_asymmetric(a.drop_first(), b.drop_first());
    }
}

/// Of two different texts, one comes before the other.
pub proof fn lemma_lex_total(a: Seq<char>, b: Seq<char>)
    requires
        a != b,
    ensures
        lex_lt(a, b) || lex_lt(b, a),
    decreases a.len(),
{
    if a.len() > 0 && b.len() > 0 && a[0] == b[0] {
        if a.drop_first() == b.drop_first() {
            assert(a =~= seq![a[0]] + a.drop_first());
            assert(b =~= seq![b[0]] + b.drop_first());
        }
        lemma_lex_total(a.drop_first(), b.drop_first());
    } else if a.len() == 0 && b.len() == 0 {
        assert(a =~= b);
    }
}

/// The text order is transitive.
pub proof fn lemma_lex_transitive(a: Seq<char>, b: Seq<char>, c: Seq<char>)
    requires
        lex_lt(a, b),
        lex_lt(b, c),
    ensures
        lex_lt(a, c),
    decreases a.len(),
{
    if a.len() > 0 && b.len() > 0 && c.len() > 0 && a[0] == b[0] && b[0] == c[0] {
        lemma_lex_transitive(a.drop_first(), b.drop_first(), c.drop_first());
    }
}

/// Whether `a` precedes `b` in code-point order.
pub fn str_lt(a: &str, b: &str) -> (r: bool)
    ensures
        r == lex_lt(a@, b@),
{
    let n = a.unicode_len();
    let m = b.unicode_len();
    let mut i: usize = 0;
    assert(a@.skip(0) =~= a@);
    assert(b@.skip(0) =~= b@);
    while i < n && i < m && a.get_char(i) == b.get_char(i)
        invariant
            n == a@.len(),
            m == b@.len(),
            i <= n,
            i <= m,
            lex_lt(a@, b@) == lex_lt(a@.skip(i as int), b@.skip(i as int)),
        decreases n - i,
    {
        assert(a@.skip(i as int).drop_first() =~= a@.skip(i + 1));
        assert(b@.skip(i as int).drop_first() =~= b@.skip(i + 1));
        i = i + 1;
    }
    if i == n {
        i < m
    } else if i == m {
        false
    } else {
        a.get_char(i) < b.get_char(i)
    }
}

/// Whether `a` and `b` are the same text.
pub fn str_eq(a: &str, b: &str) -> (r: bool)
    ensures
        r == (a@ == b@),
{
    let n = a.unicode_len();
    let m = b.unicode_len();
    if n != m {
        return false;
    }
    let mut i: usize = 0;
    while i < n
        invariant
            n == a@.len(),
            m == b@.len(),
            n == m,
            i <= n,
            forall|j: int| 0 <= j < i ==> a@[j] == b@[j],
        decreases n - i,
    {
        if a.get_char(i) != b.get_char(i) {
            return false;
        }
        i = i + 1;
    }
    assert(a@ =~= b@);
    true
}

/// Adds `name` to the code-point-ordered set `set`, unless it is already there.
pub fn insert_sorted(set: &mut Vec<&'static str>, name: &'static str)
    requires
        strictly_sorted(views(old(set)@)),
    ensures
        strictly_sorted(views(final(set)@)),
        views(final(set)@).to_set() == views(old(set)@).to_set().insert(name@),
{
    let ghost before = views(set@);
    let n = set.len();
    let mut i: usize = 0;
    while i < n && str_lt(set[i], name)
        invariant
            n == set.len(),
            i <= n,
            views(set@) == before,
            forall|k: int| 0 <= k < i ==> lex_lt(#[trigger] before[k], name@),
        decreases n - i,
    {
        i = i + 1;
    }
    if i < n && str_eq(set[i], name) {
        assert(before.to_set() =~= before.to_set().insert(name@)) by {
            assert(before[i as int] == name@);
        }
        return;
    }
    proof {
        if i < n {
            lemma_lex_total(before[i as int], name@);
        }
    }
    set.insert(i, name);
    proof {
        let after = views(set@);
        assert(after =~= before.insert(i as int, name@));
        assert forall|p: int, q: int| 0 <= p < q < after.len() implies lex_lt(
            #[trigger] after[p],
            #[trigger] after[q],
        ) by {
            if q < i {
            } else if q == i {
                assert(after[p] == before[p]);
            } else if p < i {
                assert(after[q] == before[q - 1]);
                assert(lex_lt(before[p], before[i as int]));
                if q - 1 > i {
                    assert(lex_lt(before[i as int], before[q - 1]));
                    lemma_lex_transitive(before[p], before[i as int], before[q - 1]);
                }
            } else if p == i {
                assert(after[q] == before[q - 1]);
                if q - 1 > i {
                    assert(lex_lt(before[i as int], before[q - 1]));
                    lemma_lex_transitive(name@, before[i as int], before[q - 1]);
                }
            } else {
                assert(after[p] == before[p - 1]);
                assert(after[q] == before[q - 1]);
            }
        }
        assert(after.to_set() =~= before.to_set().insert(name@)) by {
            assert forall|x: Seq<char>| after.to_set().contains(x) implies before.to_set().insert(
                name@,
            ).contains(x) by {
                let k = choose|k: int| 0 <= k < after.len() && after[k] == x;
                if k < i {
                    assert(before[k] == x);
                } else if k > i {
                    assert(before[k - 1] == x);
                }
            }
            assert forall|x: Seq<char>| before.to_set().insert(name@).contains(x) implies after.to_set().contains(x) by {
                if x == name@ {
                    assert(after[i as int] == x);
                } else {
                    let k = choose|k: int| 0 <= k < before.len() && before[k] == x;
                    if k < i {
                        assert(after[k] == x);
                    } else {
                        assert(after[k + 1] == x);
                    }
                }
            }
        }
    }
}

/// A scope that grants a write, such as `esi-characters.write_contacts.v1`: its action part
/// (after the first `.`) starts with `write_`.
pub open spec fn is_write_name(name: Seq<char>) -> bool {
    exists|k: int|
        0 <= k && k + 7 <= name.len() && name[k] == '.' && (forall|j: int|
            0 <= j < k ==> name[j] != '.') && name.subrange(k + 1, k + 7) == seq![
            'w',
            'r',
            'i',
            't',
            'e',
            '_',
        ]
}

/// Whether `scope` grants a write rather than a read.
pub fn is_write_scope(scope: &str) -> (r: bool)
    ensures
        r == is_write_name(scope@),
{
    let n = scope.unicode_len();
    let mut k: usize = 0;
    while k < n && scope.get_char(k) != '.'
        invariant
            n == scope@.len(),
            k <= n,
            forall|j: int| 0 <= j < k ==> scope@[j] != '.',
        decreases n - k,
    {
        k = k + 1;
    }
    if n < 7 || k > n - 7 {
        proof {
            if is_write_name(scope@) {
                let w = choose|w: int|
                    0 <= w && w + 7 <= scope@.len() && scope@[w] == '.' && (forall|j: int|
                        0 <= j < w ==> scope@[j] != '.') && scope@.subrange(w + 1, w + 7) == seq![
                        'w',
                        'r',
                        'i',
                        't',
                        'e',
                        '_',
                    ];
                if w < k {
                } else if w > k {
                    assert(scope@[k as int] == '.');
                }
            }
        }
        return false;
    }
    let r = scope.get_char(k + 1) == 'w' && scope.get_char(k + 2) == 'r' && scope.get_char(k + 3)
        == 'i' && scope.get_char(k + 4) == 't' && scope.get_char(k + 5) == 'e' && scope.get_char(
        k + 6,
    ) == '_';
    proof {
        let word = seq!['w', 'r', 'i', 't', 'e', '_'];
        if r {
            assert(scope@.subrange(k + 1, k + 7) =~= word);
        }
        if is_write_name(scope@) {
            let w = choose|w: int|
                0 <= w && w + 7 <= scope@.len() && scope@[w] == '.' && (forall|j: int|
                    0 <= j < w ==> scope@[j] != '.') && scope@.subrange(w + 1, w + 7) == word;
            if w < k {
            } else if w > k {
                assert(scope@[k as int] == '.');
            } else {
                assert(scope@.subrange(w + 1, w + 7)[0] == 'w');
                assert(scope@.subrange(w + 1, w + 7)[1] == 'r');
                assert(scope@.subrange(w + 1, w + 7)[2] == 'i');
                assert(scope@.subrange(w + 1, w + 7)[3] == 't');
                assert(scope@.subrange(w + 1, w + 7)[4] == 'e');
                assert(scope@.subrange(w + 1, w + 7)[5] == '_');
            }
        }
    }
    r
}

} // verus!
