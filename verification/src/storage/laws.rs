//! What holds of every store, stated over the model.

use crate::ip::{IpAddress, IpCidr};
use crate::response::RdapResponseView;
use crate::response::RdapResponse;
use crate::storage::mem::interval::{admits, admits_all, lemma_covering_unique, Span};
use crate::storage::mem::state::{staging, Loaded, StateFile, StateFileContent, Template};
use crate::storage::model::{
    autnum_span, key_of, lemma_merge_valid, lemma_with_one, lemma_with_response_valid,
    network_key, Key, NetworkKey, StoreView, Written,
};
use vstd::prelude::*;

verus! {

/// A record that was written is held under the key it names, exactly as it
/// was written, and every other key holds what it held before.
pub proof fn law_written_is_held(s: StoreView, r: RdapResponseView)
    ensures
        s.with_response(r) matches Written::Stored(v) ==> {
            &&& key_of(r) is Some
            &&& v.at(key_of(r)->0) == Some(r)
            &&& forall|o: Key| o != key_of(r)->0 ==> #[trigger] v.at(o) == s.at(o)
        },
{
}

/// In a valid store, a record that is held under a key names that key: its
/// key fields are the ones it is found by.
pub proof fn law_held_under_own_key(s: StoreView, k: Key)
    requires
        s.valid(),
    ensures
        s.at(k) matches Some(r) ==> key_of(r) == Some(k),
{
}

/// A lookup by number finds the autnum whose range contains the number, and
/// finds none only where no range of the store contains it.
pub proof fn law_autnum_containment(s: StoreView, number: u32)
    requires
        s.valid(),
    ensures
        match s.autnum(number) {
            Some(r) => r matches RdapResponseView::Autnum(a) && autnum_span(a) matches Some(sp)
                && sp.contains(number as u128) && s.at(Key::Autnum(sp)) == Some(r),
            None => forall|sp: Span| #[trigger]
                s.autnums.contains_key(sp) ==> !sp.contains(number as u128),
        },
{
}

/// Every number of a stored range finds the autnum of that range.
pub proof fn law_autnum_found(s: StoreView, sp: Span, number: u32)
    requires
        s.valid(),
        s.autnums.contains_key(sp),
        sp.contains(number as u128),
    ensures
        s.autnum(number) == Some(RdapResponseView::Autnum(s.autnums[sp])),
{
    lemma_covering_unique(s.autnums, sp, number as u128);
}

/// A lookup by address finds the network of the address's family whose
/// range contains the address, and finds none only where no such range of
/// the store contains it.
pub proof fn law_network_containment(s: StoreView, addr: IpAddress)
    requires
        s.valid(),
    ensures
        match s.network_by_ip(addr) {
            Some(r) => r matches RdapResponseView::Network(n) && network_key(n) matches Some(k)
                && k.v4 == addr.is_v4() && k.span.contains(addr.number()) && s.at(Key::Network(k))
                == Some(r),
            None => forall|sp: Span| #[trigger]
                s.networks(addr.is_v4()).contains_key(sp) ==> !sp.contains(addr.number()),
        },
{
}

/// A network that is found by its CIDR block is found by every address of
/// the block, and by-block lookup finds only a network whose range is the
/// block exactly.
pub proof fn law_block_and_address_agree(s: StoreView, cidr: IpCidr, addr: IpAddress)
    requires
        s.valid(),
        cidr.wf(),
        addr.is_v4() == cidr.network().is_v4(),
        cidr.span().contains(addr.number()),
        s.network_by_cidr(cidr) is Some,
    ensures
        s.network_by_ip(addr) == s.network_by_cidr(cidr),
        s.network_by_cidr(cidr) matches Some(RdapResponseView::Network(n)) && n.start_address
            == Some(cidr.network()) && n.end_address == Some(cidr.last()),
{
    cidr.lemma_wf();
    let nets = s.networks(cidr.network().is_v4());
    lemma_covering_unique(nets, cidr.span(), addr.number());
    let n = nets[cidr.span()];
    assert(network_key(n) == Some(NetworkKey { v4: cidr.network().is_v4(), span: cidr.span() }));
}

/// No two records of the list name the same key.
pub open spec fn distinct_keys(rs: Seq<RdapResponseView>) -> bool {
    forall|i: int, j: int| 0 <= i < j < rs.len() ==> key_of(#[trigger] rs[i]) != key_of(#[trigger] rs[j])
}

/// No record of the list names a key under which the store holds a record.
pub open spec fn fresh_keys(s: StoreView, rs: Seq<RdapResponseView>) -> bool {
    forall|i: int|
        0 <= i < rs.len() && key_of(#[trigger] rs[i]) is Some ==> s.at(key_of(rs[i])->0) is None
}

/// After a batch of records with distinct keys was written, each of them is
/// held under its own key, exactly as it was written, and every key that
/// none of them names holds what it held before.
pub proof fn law_batch_is_held(s: StoreView, rs: Seq<RdapResponseView>)
    requires
        s.valid(),
        distinct_keys(rs),
    ensures
        s.with_all(rs) matches Written::Stored(v) ==> {
            &&& v.valid()
            &&& forall|i: int|
                0 <= i < rs.len() ==> key_of(#[trigger] rs[i]) is Some && v.at(key_of(rs[i])->0)
                    == Some(rs[i])
            &&& forall|k: Key|
                (forall|i: int| 0 <= i < rs.len() ==> key_of(#[trigger] rs[i]) != Some(k))
                    ==> #[trigger] v.at(k) == s.at(k)
        },
    decreases rs.len(),
{
    if rs.len() > 0 {
        if let Written::Stored(next) = s.with_response(rs[0]) {
            let rest = rs.skip(1);
            lemma_with_response_valid(s, rs[0]);
            law_written_is_held(s, rs[0]);
            assert forall|i: int, j: int| 0 <= i < j < rest.len() implies key_of(
                #[trigger] rest[i],
            ) != key_of(#[trigger] rest[j]) by {
                assert(rest[i] == rs[i + 1] && rest[j] == rs[j + 1]);
            }
            law_batch_is_held(next, rest);
            if let Written::Stored(v) = next.with_all(rest) {
                assert forall|i: int| 0 <= i < rs.len() implies key_of(#[trigger] rs[i]) is Some
                    && v.at(key_of(rs[i])->0) == Some(rs[i]) by {
                    if i == 0 {
                        let k = key_of(rs[0])->0;
                        assert forall|j: int| 0 <= j < rest.len() implies key_of(
                            #[trigger] rest[j],
                        ) != Some(k) by {
                            assert(rest[j] == rs[j + 1]);
                        }
                        assert(v.at(k) == next.at(k));
                    } else {
                        assert(rest[i - 1] == rs[i]);
                    }
                }
                assert forall|k: Key|
                    (forall|i: int| 0 <= i < rs.len() ==> key_of(#[trigger] rs[i]) != Some(
                        k,
                    )) implies #[trigger] v.at(k) == s.at(k) by {
                    assert forall|j: int| 0 <= j < rest.len() implies key_of(
                        #[trigger] rest[j],
                    ) != Some(k) by {
                        assert(rest[j] == rs[j + 1]);
                    }
                    assert(v.at(k) == next.at(k));
                    assert(key_of(rs[0]) != Some(k));
                }
            }
        }
    }
}

/// Writing a record under a key that held none adds one record to the
/// store.
pub proof fn law_write_adds_one(s: StoreView, r: RdapResponseView)
    requires
        s.valid(),
        key_of(r) is Some ==> s.at(key_of(r)->0) is None,
    ensures
        s.with_response(r) matches Written::Stored(v) ==> v.len() == s.len() + 1,
{
}

/// Writing a batch of records with distinct keys, none of which the store
/// held, adds as many records to the store as the batch has.
pub proof fn law_batch_count(s: StoreView, rs: Seq<RdapResponseView>)
    requires
        s.valid(),
        distinct_keys(rs),
        fresh_keys(s, rs),
    ensures
        s.with_all(rs) matches Written::Stored(v) ==> v.len() == s.len() + rs.len(),
    decreases rs.len(),
{
    if rs.len() > 0 {
        if let Written::Stored(next) = s.with_response(rs[0]) {
            let rest = rs.skip(1);
            lemma_with_response_valid(s, rs[0]);
            law_written_is_held(s, rs[0]);
            law_write_adds_one(s, rs[0]);
            assert forall|i: int, j: int| 0 <= i < j < rest.len() implies key_of(
                #[trigger] rest[i],
            ) != key_of(#[trigger] rest[j]) by {
                assert(rest[i] == rs[i + 1] && rest[j] == rs[j + 1]);
            }
            assert forall|i: int| 0 <= i < rest.len() && key_of(#[trigger] rest[i]) is Some implies next.at(
                key_of(rest[i])->0,
            ) is None by {
                assert(rest[i] == rs[i + 1]);
                assert(key_of(rs[0]) != key_of(rs[i + 1]));
            }
            law_batch_count(next, rest);
        }
    }
}

/// A template whose identifiers name distinct keys, loaded into an empty
/// store, leaves exactly one record per identifier, each held under the
/// key of its identifier and equal to the prototype but for the key
/// fields. A template of domains, entities or nameservers always loads.
pub proof fn law_template_expansion(t: Template)
    requires
        distinct_keys(t.expansion()),
    ensures
        t.expansion().len() == t.count(),
        t is Domain || t is Entity || t is Nameserver ==> StoreView::empty().with_all(
            t.expansion(),
        ) is Stored,
        StoreView::empty().with_all(t.expansion()) matches Written::Stored(v) ==> {
            &&& v.valid()
            &&& v.len() == t.count()
            &&& forall|i: int|
                0 <= i < t.count() ==> key_of(#[trigger] t.record(i)) is Some && v.at(
                    key_of(t.record(i))->0,
                ) == Some(t.record(i))
        },
{
    let s = StoreView::empty();
    let rs = t.expansion();
    assert(s.len() == 0);
    law_batch_is_held(s, rs);
    law_batch_count(s, rs);
    if t is Domain || t is Entity || t is Nameserver {
        lemma_keyed_batch_is_stored(s, rs, 0);
        assert(rs.skip(0) =~= rs);
    }
    if let Written::Stored(v) = s.with_all(rs) {
        assert forall|i: int| 0 <= i < t.count() implies key_of(#[trigger] t.record(i)) is Some
            && v.at(key_of(t.record(i))->0) == Some(t.record(i)) by {
            assert(rs[i] == t.record(i));
        }
    }
}

/// A batch of domains, entities and nameservers that all name their key is
/// never refused.
proof fn lemma_keyed_batch_is_stored(s: StoreView, rs: Seq<RdapResponseView>, from: int)
    requires
        0 <= from <= rs.len(),
        forall|i: int|
            0 <= i < rs.len() ==> key_of(#[trigger] rs[i]) is Some && (rs[i] is Domain
                || rs[i] is Entity || rs[i] is Nameserver),
    ensures
        s.with_all(rs.skip(from)) is Stored,
    decreases rs.len() - from,
{
    if from < rs.len() {
        let r = rs[from];
        assert(rs.skip(from)[0] == r);
        assert(rs.skip(from).skip(1) =~= rs.skip(from + 1));
        assert(key_of(r) is Some);
        if let Written::Stored(next) = s.with_response(r) {
            lemma_keyed_batch_is_stored(next, rs, from + 1);
        }
    }
}

/// After a commit, a key holds what the transaction staged under it, or,
/// where the transaction staged nothing under it, what it held before. So
/// every staged record is visible, and nothing else has changed.
pub proof fn law_commit_visibility(s: StoreView, staged: StoreView, k: Key)
    requires
        s.valid(),
        staged.valid(),
        s.admits(staged),
    ensures
        s.merge(staged).valid(),
        s.merge(staged).at(k) == (if staged.at(k) is Some {
            staged.at(k)
        } else {
            s.at(k)
        }),
{
    lemma_merge_valid(s, staged);
}

/// Committing the same batch a second time changes nothing: the store
/// admits it again and holds the same records afterwards.
pub proof fn law_commit_idempotent(s: StoreView, staged: StoreView)
    requires
        s.valid(),
        staged.valid(),
        s.admits(staged),
    ensures
        s.merge(staged).admits(staged),
        s.merge(staged).merge(staged) == s.merge(staged),
{
    let m = s.merge(staged);
    lemma_merge_valid(s, staged);
    assert(m.merge(staged) =~= m);
    assert(admits_all(m.autnums, staged.autnums)) by {
        assert forall|sp: Span| #[trigger] staged.autnums.contains_key(sp) implies admits(
            m.autnums,
            sp,
        ) by {
            assert(m.autnums.contains_key(sp));
        }
    }
    assert(admits_all(m.networks4, staged.networks4)) by {
        assert forall|sp: Span| #[trigger] staged.networks4.contains_key(sp) implies admits(
            m.networks4,
            sp,
        ) by {
            assert(m.networks4.contains_key(sp));
        }
    }
    assert(admits_all(m.networks6, staged.networks6)) by {
        assert forall|sp: Span| #[trigger] staged.networks6.contains_key(sp) implies admits(
            m.networks6,
            sp,
        ) by {
            assert(m.networks6.contains_key(sp));
        }
    }
}

/// Writing a batch of records to a valid store leaves a valid store.
pub proof fn lemma_with_all_valid(s: StoreView, rs: Seq<RdapResponseView>)
    requires
        s.valid(),
    ensures
        s.with_all(rs) matches Written::Stored(v) ==> v.valid(),
    decreases rs.len(),
{
    if rs.len() > 0 {
        lemma_with_response_valid(s, rs[0]);
        if let Written::Stored(next) = s.with_response(rs[0]) {
            lemma_with_all_valid(next, rs.skip(1));
        }
    }
}

/// Staging files on top of valid staged records leaves valid staged
/// records.
pub proof fn lemma_staging_valid(start: StoreView, files: Seq<StateFile>, from: int)
    requires
        start.valid(),
    ensures
        staging(start, files, from) matches Loaded::Staged(v) ==> v.valid(),
    decreases files.len() - from,
{
    if 0 <= from < files.len() {
        if let Some(rs) = files[from].records() {
            lemma_with_all_valid(start, rs);
            if let Written::Stored(v) = start.with_all(rs) {
                lemma_staging_valid(v, files, from + 1);
            }
        }
    }
}

/// A single record file loads exactly where its record names a key, and
/// then the store holds that one record under that key.
pub proof fn law_record_file_is_held(file: StateFile, record: RdapResponse)
    requires
        file.content == StateFileContent::Record(record),
    ensures
        match staging(StoreView::empty(), seq![file], 0) {
            Loaded::Staged(v) => {
                &&& v.valid()
                &&& key_of(record@) is Some
                &&& v.at(key_of(record@)->0) == Some(record@)
                &&& v.len() == 1
            },
            Loaded::Failed(i) => i == 0 && key_of(record@) is None,
        },
{
    let s = StoreView::empty();
    let files = seq![file];
    reveal_with_fuel(staging, 2);
    lemma_with_one(s, record@);
    law_written_is_held(s, record@);
    law_write_adds_one(s, record@);
    lemma_with_response_valid(s, record@);
    assert(s.len() == 0);
    assert(files[0] == file);
}

/// Loading the files of a directory a second time changes nothing: the
/// store admits what they stage again, and holds the same records
/// afterwards.
pub proof fn law_load_idempotent(s: StoreView, files: Seq<StateFile>)
    requires
        s.valid(),
        staging(StoreView::empty(), files, 0) is Staged,
        s.admits(staging(StoreView::empty(), files, 0)->Staged_0),
    ensures
        ({
            let staged = staging(StoreView::empty(), files, 0)->Staged_0;
            &&& s.merge(staged).valid()
            &&& s.merge(staged).admits(staged)
            &&& s.merge(staged).merge(staged) == s.merge(staged)
        }),
{
    let staged = staging(StoreView::empty(), files, 0)->Staged_0;
    lemma_staging_valid(StoreView::empty(), files, 0);
    lemma_merge_valid(s, staged);
    law_commit_idempotent(s, staged);
}

} // verus!
