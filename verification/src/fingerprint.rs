//! The hardware fingerprint: tagged readings of the environment, sorted and
//! hashed, with the rules that tell a critical change from a tolerable one and
//! the salt that binds a derived key to the machine.

use crate::text::{
    decimal_string, decimal_text, is_prefix, join_strings, join_texts,
    lemma_text_le_antisymmetric, lemma_text_le_reflexive, lemma_text_le_total,
    lemma_text_le_transitive, starts_with, string_le, text_le, texts,
};
use std::collections::hash_map::DefaultHasher;
use std::hash::Hasher;
use vstd::prelude::*;
use vstd::relations::{sorted_by, total_ordering};
use vstd::seq_lib::lemma_sorted_unique;
use vstd::std_specs::hash::DefaultHasherAdditionalSpecFns;
use vstd::utf8::encode_utf8;

verus! {

/// What the caller read from the process environment. A variable that is unset
/// or not valid Unicode is `None`.
pub struct HardwareEnvironment {
    /// The variable `USER`.
    pub user: Option<String>,
    /// The variable `USERNAME`.
    pub username: Option<String>,
    /// The variable `HOME`.
    pub home: Option<String>,
    /// The variable `USERPROFILE`.
    pub userprofile: Option<String>,
    /// The operating system's name.
    pub os: String,
    /// The processor architecture's name.
    pub arch: String,
    /// The variable `COMPUTERNAME`.
    pub computername: Option<String>,
    /// The variable `HOSTNAME`.
    pub hostname: Option<String>,
    /// The variable `NAME`.
    pub name: Option<String>,
}

/// The first reading that is present, else `fallback`.
pub open spec fn first_present(
    first: Option<String>,
    second: Option<String>,
    fallback: Seq<char>,
) -> Seq<char> {
    match first {
        Some(s) => s@,
        None => match second {
            Some(s) => s@,
            None => fallback,
        },
    }
}

impl HardwareEnvironment {
    /// The account name: `USER`, else `USERNAME`, else `unknown_user`.
    pub open spec fn account_name(&self) -> Seq<char> {
        first_present(self.user, self.username, "unknown_user"@)
    }

    /// The home directory: `HOME`, else `USERPROFILE`, else `unknown`.
    pub open spec fn home_dir(&self) -> Seq<char> {
        first_present(self.home, self.userprofile, "unknown"@)
    }

    /// The machine's name: `COMPUTERNAME`, else `HOSTNAME`, else `NAME`, else
    /// `unknown_computer`.
    pub open spec fn machine_name(&self) -> Seq<char> {
        match self.computername {
            Some(s) => s@,
            None => first_present(self.hostname, self.name, "unknown_computer"@),
        }
    }

    /// The five component strings, each tagged with its source, in the order
    /// in which they are gathered.
    pub open spec fn tagged(&self) -> Seq<Seq<char>> {
        seq![
            "user:"@ + self.account_name(),
            "home:"@ + self.home_dir(),
            "os:"@ + self.os@,
            "arch:"@ + self.arch@,
            "computer:"@ + self.machine_name(),
        ]
    }

    /// The tagged components in ascending order.
    pub open spec fn sorted_components(&self) -> Seq<Seq<char>> {
        self.tagged().sort_by(text_order())
    }

    /// The fingerprint hash: the hash of the sorted components joined by `||`.
    pub open spec fn fingerprint_hash(&self) -> u64 {
        text_hash(join_texts(self.sorted_components(), component_separator()))
    }
}

/// The value that std's default hasher gives for a string: it is fed the
/// string's bytes and then the byte `0xff`, as the standard library feeds a
/// string to a hasher.
pub open spec fn text_hash(s: Seq<char>) -> u64 {
    DefaultHasher::spec_finish(seq![encode_utf8(s), seq![0xffu8]])
}

/// Hashes a string with std's default hasher.
pub fn hash_text(s: &str) -> (r: u64)
    ensures
        r == text_hash(s@),
{
    let mut end: Vec<u8> = Vec::new();
    end.push(0xff);
    let mut hasher = DefaultHasher::new();
    hasher.write(s.as_bytes());
    hasher.write(end.as_slice());
    assert(hasher@ =~= seq![encode_utf8(s@), seq![0xffu8]]);
    hasher.finish()
}

/// The order [`text_le`] as a relation.
pub open spec fn text_order() -> spec_fn(Seq<char>, Seq<char>) -> bool {
    |a: Seq<char>, b: Seq<char>| text_le(a, b)
}

/// The order of texts is total: reflexive, antisymmetric, transitive, and any
/// two texts are comparable.
pub proof fn lemma_text_order_total()
    ensures
        total_ordering(text_order()),
{
    let r = text_order();
    assert forall|x: Seq<char>| #[trigger] r(x, x) by {
        lemma_text_le_reflexive(x);
    }
    assert forall|x: Seq<char>, y: Seq<char>| #[trigger] r(x, y) && #[trigger] r(y, x) implies x
        == y by {
        lemma_text_le_antisymmetric(x, y);
    }
    assert forall|x: Seq<char>, y: Seq<char>, z: Seq<char>| #[trigger]
        r(x, y) && #[trigger] r(y, z) implies r(x, z) by {
        lemma_text_le_transitive(x, y, z);
    }
    assert forall|x: Seq<char>, y: Seq<char>| #[trigger] r(x, y) || #[trigger] r(y, x) by {
        lemma_text_le_total(x, y);
    }
}

/// A sorted sequence with the multiset of `items` is `items` sorted: the
/// ascending arrangement of given texts is unique.
pub proof fn lemma_sorted_arrangement_unique(sorted: Seq<Seq<char>>, items: Seq<Seq<char>>)
    requires
        is_sorted(sorted),
        sorted.to_multiset() == items.to_multiset(),
    ensures
        sorted == items.sort_by(text_order()),
{
    lemma_text_order_total();
    items.lemma_sort_by_ensures(text_order());
    assert(sorted_by(sorted, text_order())) by {
        assert forall|i: int, j: int| 0 <= i < j < sorted.len() implies #[trigger] text_order()(
            sorted[i],
            sorted[j],
        ) by {
            assert(text_le(sorted[i], sorted[j]));
        }
    }
    lemma_sorted_unique(sorted, items.sort_by(text_order()), text_order());
}

/// Whether the texts stand in ascending order.
pub open spec fn is_sorted(parts: Seq<Seq<char>>) -> bool {
    forall|i: int, j: int| 0 <= i < j < parts.len() ==> text_le(#[trigger] parts[i], #[trigger] parts[j])
}

/// The separator between components in the text that is hashed.
pub open spec fn component_separator() -> Seq<char> {
    "||"@
}

/// Inserting an element into a sequence adds it to the sequence's multiset.
pub proof fn lemma_insert_to_multiset<A>(s: Seq<A>, pos: int, elt: A)
    requires
        0 <= pos <= s.len(),
    ensures
        s.insert(pos, elt).to_multiset() == s.to_multiset().insert(elt),
{
    broadcast use vstd::multiset::group_multiset_axioms;

    let t = s.insert(pos, elt);
    s.insert_ensures(pos, elt);
    t.to_multiset_ensures();
    assert(t.remove(pos) =~= s);
    assert(t[pos] == elt);
    assert(t.contains(elt));
    assert(t.to_multiset() =~= s.to_multiset().insert(elt));
}

/// Sorts strings into ascending order; the result holds the same strings, each
/// as often as the argument does.
pub fn sort_strings(items: &Vec<String>) -> (r: Vec<String>)
    ensures
        is_sorted(texts(r@)),
        texts(r@).to_multiset() == texts(items@).to_multiset(),
        texts(r@) == texts(items@).sort_by(text_order()),
{
    let mut sorted: Vec<String> = Vec::new();
    let mut i: usize = 0;
    assert(texts(items@).take(0) =~= texts(sorted@));
    while i < items.len()
        invariant
            i <= items.len(),
            is_sorted(texts(sorted@)),
            texts(sorted@).to_multiset() == texts(items@).take(i as int).to_multiset(),
        decreases items.len() - i,
    {
        let item = items[i].clone();
        let mut pos: usize = 0;
        while pos < sorted.len() && string_le(sorted[pos].as_str(), item.as_str())
            invariant
                pos <= sorted.len(),
                forall|k: int| 0 <= k < pos ==> text_le(#[trigger] texts(sorted@)[k], item@),
            decreases sorted.len() - pos,
        {
            pos += 1;
        }
        let ghost before = texts(sorted@);
        let ghost item_text = item@;
        proof {
            let after = before.insert(pos as int, item@);
            before.insert_ensures(pos as int, item@);
            assert forall|a: int, b: int| 0 <= a < b < after.len() implies text_le(
                #[trigger] after[a],
                #[trigger] after[b],
            ) by {
                if b < pos {
                    assert(after[a] == before[a] && after[b] == before[b]);
                } else if b == pos {
                    assert(after[a] == before[a]);
                } else if a == pos {
                    assert(after[b] == before[b - 1]);
                    lemma_text_le_total(before[pos as int], item@);
                    if b - 1 > pos {
                        lemma_text_le_transitive(item@, before[pos as int], before[b - 1]);
                    }
                } else if a < pos {
                    assert(after[a] == before[a] && after[b] == before[b - 1]);
                } else {
                    assert(after[a] == before[a - 1] && after[b] == before[b - 1]);
                }
            }
            lemma_insert_to_multiset(before, pos as int, item@);
            let seen = texts(items@).take(i as int);
            assert(texts(items@).take(i + 1) =~= seen.push(item@));
            seen.to_multiset_ensures();
        }
        sorted.insert(pos, item);
        assert(texts(sorted@) =~= before.insert(pos as int, item_text));
        i += 1;
    }
    proof {
        assert(texts(items@).take(items.len() as int) =~= texts(items@));
        lemma_sorted_arrangement_unique(texts(sorted@), texts(items@));
    }
    sorted
}

fn pick<'a>(first: &'a Option<String>, second: &'a Option<String>, fallback: &'a str) -> (r:
    &'a str)
    ensures
        r@ == first_present(*first, *second, fallback@),
{
    match first {
        Some(s) => s.as_str(),
        None => match second {
            Some(s) => s.as_str(),
            None => fallback,
        },
    }
}

fn tag(label: &str, value: &str) -> (r: String)
    ensures
        r@ == label@ + value@,
{
    let mut out = label.to_owned();
    out.append(value);
    out
}

/// Gathers the tagged components of `env`, sorts them, joins them with `||`
/// and hashes the joined text. Gives the hash and the sorted components.
pub fn generate_stable_hardware_fingerprint(env: &HardwareEnvironment) -> (r: (u64, Vec<String>))
    ensures
        is_sorted(texts(r.1@)),
        texts(r.1@).to_multiset() == env.tagged().to_multiset(),
        texts(r.1@) == env.sorted_components(),
        r.1@.len() == 5,
        r.0 == env.fingerprint_hash(),
{
    let mut components: Vec<String> = Vec::new();
    components.push(tag("user:", pick(&env.user, &env.username, "unknown_user")));
    components.push(tag("home:", pick(&env.home, &env.userprofile, "unknown")));
    components.push(tag("os:", env.os.as_str()));
    components.push(tag("arch:", env.arch.as_str()));
    let machine = match &env.computername {
        Some(s) => s.as_str(),
        None => pick(&env.hostname, &env.name, "unknown_computer"),
    };
    components.push(tag("computer:", machine));
    assert(texts(components@) =~= env.tagged());
    let sorted = sort_strings(&components);
    proof {
        texts(sorted@).to_multiset_ensures();
        env.tagged().to_multiset_ensures();
    }
    let combined = join_strings(&sorted, "||");
    let hash = hash_text(combined.as_str());
    (hash, sorted)
}

/// Whether a component is one whose change means another machine or another
/// account: the account name, the operating system or the architecture.
pub open spec fn is_critical_component(c: Seq<char>) -> bool {
    is_prefix("user:"@, c) || is_prefix("os:"@, c) || is_prefix("arch:"@, c)
}

/// The critical components among `parts`, in their order.
pub open spec fn critical_components(parts: Seq<Seq<char>>) -> Seq<Seq<char>> {
    parts.filter(|c: Seq<char>| is_critical_component(c))
}

/// Whether the critical components of the two fingerprints differ.
pub open spec fn critical_change(stored: Seq<Seq<char>>, current: Seq<Seq<char>>) -> bool {
    critical_components(stored) != critical_components(current)
}

fn critical_only(parts: &Vec<String>) -> (r: Vec<String>)
    ensures
        texts(r@) == critical_components(texts(parts@)),
{
    let mut out: Vec<String> = Vec::new();
    let mut i: usize = 0;
    assert(texts(parts@).take(0) =~= Seq::<Seq<char>>::empty());
    assert(texts(out@) =~= critical_components(texts(parts@).take(0)));
    while i < parts.len()
        invariant
            i <= parts.len(),
            texts(out@) == critical_components(texts(parts@).take(i as int)),
        decreases parts.len() - i,
    {
        let part = parts[i].as_str();
        let ghost before = texts(out@);
        proof {
            let seen = texts(parts@).take(i as int);
            assert(texts(parts@).take(i + 1) =~= seen.push(part@));
            seen.lemma_filter_push(part@, |c: Seq<char>| is_critical_component(c));
        }
        if starts_with(part, "user:") || starts_with(part, "os:") || starts_with(part, "arch:") {
            out.push(parts[i].clone());
            assert(texts(out@) =~= before.push(part@));
        }
        i += 1;
    }
    assert(texts(parts@).take(parts.len() as int) =~= texts(parts@));
    out
}

fn same_strings(a: &Vec<String>, b: &Vec<String>) -> (r: bool)
    ensures
        r == (texts(a@) == texts(b@)),
{
    if a.len() != b.len() {
        assert(texts(a@).len() != texts(b@).len());
        return false;
    }
    let mut i: usize = 0;
    while i < a.len()
        invariant
            i <= a.len(),
            a.len() == b.len(),
            forall|j: int| 0 <= j < i ==> texts(a@)[j] == texts(b@)[j],
        decreases a.len() - i,
    {
        if a[i] != b[i] {
            assert(texts(a@)[i as int] != texts(b@)[i as int]);
            return false;
        }
        i += 1;
    }
    assert(texts(a@) =~= texts(b@));
    true
}

/// Decides whether the change from the stored components to the current ones
/// is critical.
pub fn is_critical_hardware_change(stored: &Vec<String>, current: &Vec<String>) -> (r: bool)
    ensures
        r == critical_change(texts(stored@), texts(current@)),
{
    let stored_critical = critical_only(stored);
    let current_critical = critical_only(current);
    !same_strings(&stored_critical, &current_critical)
}

/// The line that reports the change of the component at `index`.
pub open spec fn change_note(index: nat, stored: Seq<char>, current: Seq<char>) -> Seq<char> {
    "Component "@ + decimal_text(index) + ": '"@ + stored + "' -> '"@ + current + "'"@
}

/// The change notes of the first `n` positions, in ascending order of position.
pub open spec fn changes_upto(stored: Seq<Seq<char>>, current: Seq<Seq<char>>, n: nat) -> Seq<
    Seq<char>,
>
    decreases n,
{
    if n == 0 {
        Seq::empty()
    } else {
        let earlier = changes_upto(stored, current, (n - 1) as nat);
        if stored[n - 1] != current[n - 1] {
            earlier.push(change_note((n - 1) as nat, stored[n - 1], current[n - 1]))
        } else {
            earlier
        }
    }
}

/// The length of the shorter of two sequences.
pub open spec fn common_len<A>(a: Seq<A>, b: Seq<A>) -> nat {
    if a.len() <= b.len() {
        a.len()
    } else {
        b.len()
    }
}

/// One note for each position that both fingerprints have and at which they
/// differ.
pub open spec fn component_changes(stored: Seq<Seq<char>>, current: Seq<Seq<char>>) -> Seq<
    Seq<char>,
> {
    changes_upto(stored, current, common_len(stored, current))
}

/// Lists the positions at which the two fingerprints differ, as notes.
pub fn changed_components(stored: &Vec<String>, current: &Vec<String>) -> (r: Vec<String>)
    ensures
        texts(r@) == component_changes(texts(stored@), texts(current@)),
{
    let n = if stored.len() <= current.len() {
        stored.len()
    } else {
        current.len()
    };
    let mut out: Vec<String> = Vec::new();
    let mut i: usize = 0;
    assert(texts(out@) =~= changes_upto(texts(stored@), texts(current@), 0));
    while i < n
        invariant
            i <= n,
            n == common_len(texts(stored@), texts(current@)),
            n <= stored.len(),
            n <= current.len(),
            texts(out@) == changes_upto(texts(stored@), texts(current@), i as nat),
        decreases n - i,
    {
        let ghost before = texts(out@);
        if stored[i] != current[i] {
            let mut note = "Component ".to_owned();
            note.append(decimal_string(i as u64).as_str());
            note.append(": '");
            note.append(stored[i].as_str());
            note.append("' -> '");
            note.append(current[i].as_str());
            note.append("'");
            assert(note@ =~= change_note(i as nat, stored@[i as int]@, current@[i as int]@));
            out.push(note);
            assert(texts(out@) =~= before.push(
                change_note(i as nat, stored@[i as int]@, current@[i as int]@),
            ));
        }
        i += 1;
    }
    out
}

/// The line that reports a component that drifted.
pub open spec fn drift_note(stored: Seq<char>, current: Seq<char>) -> Seq<char> {
    "Changed: "@ + stored + " -> "@ + current
}

/// The drift notes of the first `n` positions, in ascending order of position.
pub open spec fn drift_upto(stored: Seq<Seq<char>>, current: Seq<Seq<char>>, n: nat) -> Seq<
    Seq<char>,
>
    decreases n,
{
    if n == 0 {
        Seq::empty()
    } else {
        let earlier = drift_upto(stored, current, (n - 1) as nat);
        if stored[n - 1] != current[n - 1] {
            earlier.push(drift_note(stored[n - 1], current[n - 1]))
        } else {
            earlier
        }
    }
}

/// One drift note for each position that both fingerprints have and at which
/// they differ.
pub open spec fn component_drift(stored: Seq<Seq<char>>, current: Seq<Seq<char>>) -> Seq<
    Seq<char>,
> {
    drift_upto(stored, current, common_len(stored, current))
}

/// Appends to `out` one drift note for each position at which the two
/// fingerprints differ.
pub fn push_drift_notes(out: &mut Vec<String>, stored: &Vec<String>, current: &Vec<String>)
    ensures
        texts(final(out)@) == texts(old(out)@) + component_drift(
            texts(stored@),
            texts(current@),
        ),
{
    let n = if stored.len() <= current.len() {
        stored.len()
    } else {
        current.len()
    };
    let mut i: usize = 0;
    assert(texts(out@) =~= texts(old(out)@) + drift_upto(texts(stored@), texts(current@), 0));
    while i < n
        invariant
            i <= n,
            n == common_len(texts(stored@), texts(current@)),
            n <= stored.len(),
            n <= current.len(),
            texts(out@) == texts(old(out)@) + drift_upto(
                texts(stored@),
                texts(current@),
                i as nat,
            ),
        decreases n - i,
    {
        let ghost before = texts(out@);
        if stored[i] != current[i] {
            let mut note = "Changed: ".to_owned();
            note.append(stored[i].as_str());
            note.append(" -> ");
            note.append(current[i].as_str());
            assert(note@ =~= drift_note(stored@[i as int]@, current@[i as int]@));
            out.push(note);
            assert(texts(out@) =~= before.push(
                drift_note(stored@[i as int]@, current@[i as int]@),
            ));
            assert(texts(out@) =~= texts(old(out)@) + drift_upto(
                texts(stored@),
                texts(current@),
                (i + 1) as nat,
            ));
        }
        i += 1;
    }
}

/// The byte of the salt at position `i`: the byte of `hash` at position
/// `i mod 8`, least significant first, mixed with `17 i mod 256` and `0xAA`.
pub open spec fn salt_byte(hash: u64, i: int) -> u8 {
    (((hash >> ((8 * (i % 8)) as u64)) & 0xff) as u8) ^ (((i * 17) % 256) as u8) ^ 0xAAu8
}

/// The 32-byte salt that a fingerprint hash expands to.
pub open spec fn hardware_salt(hash: u64) -> Seq<u8> {
    Seq::new(32, |i: int| salt_byte(hash, i))
}

/// Expands a fingerprint hash to the salt for key derivation.
pub fn generate_hardware_salt(hash: u64) -> (r: Vec<u8>)
    ensures
        r@ == hardware_salt(hash),
{
    let mut salt: Vec<u8> = Vec::new();
    let mut i: usize = 0;
    while i < 32
        invariant
            i <= 32,
            salt@.len() == i,
            forall|j: int| 0 <= j < i ==> salt@[j] == salt_byte(hash, j),
        decreases 32 - i,
    {
        let shift: u64 = (8 * (i % 8)) as u64;
        let low: u64 = (hash >> shift) & 0xff;
        assert(low < 256) by (bit_vector)
            requires
                low == (hash >> shift) & 0xff,
        ;
        let factor: u8 = (i as u8).wrapping_mul(17);
        salt.push((low as u8) ^ factor ^ 0xAA);
        i += 1;
    }
    assert(salt@ =~= hardware_salt(hash));
    salt
}

} // verus!
