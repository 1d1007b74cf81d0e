//! The behavioral laws of the reply decoders, stated and proved over the
//! decoding and encoding models.

use vstd::prelude::*;

use crate::json::{FieldV, FieldValueV, ScalarV};
use crate::response::{
    ack_fields, ack_of_fields, batch_fields, batch_of_fields, ctx_members, ctx_objs,
    query_fields, query_of_fields, AckResponseV, BatchListenResponseV, QueryResponseV,
};
use crate::schema::{
    ctx_of_members, ctxs_of, find_field, find_member, req_code_field, ContextV, ResponseCode,
};

verus! {

/// A query reply reports success exactly when its `resultCode` field
/// carried the string "OK", whatever the other fields said.
pub proof fn lemma_query_success_criterion(fs: Seq<FieldV>)
    requires
        query_of_fields(fs) is Some,
    ensures
        (query_of_fields(fs)->0.result_code == ResponseCode::Success) <==> (find_field(
            fs,
            "resultCode"@,
        ) == Some(FieldValueV::Scalar(ScalarV::Str("OK"@)))),
{
    assert(req_code_field(fs, "resultCode"@) is Some);
}

/// A decoded query reply reports "not found" exactly when its
/// `errorCode` field carried 300, regardless of the reply code.
pub proof fn lemma_query_not_found_criterion(fs: Seq<FieldV>)
    requires
        query_of_fields(fs) is Some,
    ensures
        (query_of_fields(fs)->0.error_code == 300) <==> (find_field(fs, "errorCode"@) == Some(
            FieldValueV::Scalar(ScalarV::Int(300)),
        )),
{
}

/// A decoded query reply reports a query conflict exactly when its
/// `errorCode` field carried 400, regardless of the reply code.
pub proof fn lemma_query_conflict_criterion(fs: Seq<FieldV>)
    requires
        query_of_fields(fs) is Some,
    ensures
        (query_of_fields(fs)->0.error_code == 400) <==> (find_field(fs, "errorCode"@) == Some(
            FieldValueV::Scalar(ScalarV::Int(400)),
        )),
{
}

/// A batch-listen reply whose `changedConfigs` field is absent decodes
/// with no changed-configuration list: absence means nothing changed,
/// not an error.
pub proof fn lemma_batch_absent_changed_configs(fs: Seq<FieldV>)
    requires
        batch_of_fields(fs) is Some,
        find_field(fs, "changedConfigs"@) is None,
    ensures
        batch_of_fields(fs)->0.changed_configs is None,
{
}

// ---------------------------------------------------------------------
// Round trips at the document level
// ---------------------------------------------------------------------

proof fn lemma_wire_names_distinct()
    ensures
        "requestId"@ != "errorCode"@,
        "message"@ != "content"@,
        "md5"@ != "tag"@,
        "FAIL"@ != "OK"@,
{
    reveal_strlit("requestId");
    reveal_strlit("errorCode");
    reveal_strlit("message");
    reveal_strlit("content");
    reveal_strlit("md5");
    reveal_strlit("tag");
    reveal_strlit("FAIL");
    reveal_strlit("OK");
    assert(("requestId"@)[0] == 'r' && ("errorCode"@)[0] == 'e');
    assert(("message"@)[0] == 'm' && ("content"@)[0] == 'c');
    assert(("md5"@)[0] == 'm' && ("tag"@)[0] == 't');
    assert(("FAIL"@).len() == 4 && ("OK"@).len() == 2);
}

proof fn lemma_wire_name_lens()
    ensures
        ("requestId"@).len() == 9,
        ("resultCode"@).len() == 10,
        ("errorCode"@).len() == 9,
        ("message"@).len() == 7,
        ("contentType"@).len() == 11,
        ("content"@).len() == 7,
        ("md5"@).len() == 3,
        ("encryptedDataKey"@).len() == 16,
        ("tag"@).len() == 3,
        ("lastModified"@).len() == 12,
        ("beta"@).len() == 4,
        ("changedConfigs"@).len() == 14,
{
    reveal_strlit("requestId");
    reveal_strlit("resultCode");
    reveal_strlit("errorCode");
    reveal_strlit("message");
    reveal_strlit("contentType");
    reveal_strlit("content");
    reveal_strlit("md5");
    reveal_strlit("encryptedDataKey");
    reveal_strlit("tag");
    reveal_strlit("lastModified");
    reveal_strlit("beta");
    reveal_strlit("changedConfigs");
}

/// Encoding a query reply as a document and reading the document back
/// yields the reply again, field for field.
pub proof fn lemma_query_document_round_trip(q: QueryResponseV)
    ensures
        query_of_fields(query_fields(q)) == Some(q),
{
    lemma_wire_names_distinct();
    lemma_wire_name_lens();
    reveal_strlit("resultCode");
    reveal_strlit("contentType");
    reveal_strlit("encryptedDataKey");
    reveal_strlit("lastModified");
    reveal_strlit("beta");
    let fs = query_fields(q);
    assert(fs.len() == 11);
    let g1 = fs.drop_first();
    assert(g1 =~= fs.skip(1));
    assert(g1[0] == fs[1]);
    let g2 = g1.drop_first();
    assert(g2 =~= fs.skip(2));
    assert(g2[0] == fs[2]);
    let g3 = g2.drop_first();
    assert(g3 =~= fs.skip(3));
    assert(g3[0] == fs[3]);
    let g4 = g3.drop_first();
    assert(g4 =~= fs.skip(4));
    assert(g4[0] == fs[4]);
    let g5 = g4.drop_first();
    assert(g5 =~= fs.skip(5));
    assert(g5[0] == fs[5]);
    let g6 = g5.drop_first();
    assert(g6 =~= fs.skip(6));
    assert(g6[0] == fs[6]);
    let g7 = g6.drop_first();
    assert(g7 =~= fs.skip(7));
    assert(g7[0] == fs[7]);
    let g8 = g7.drop_first();
    assert(g8 =~= fs.skip(8));
    assert(g8[0] == fs[8]);
    let g9 = g8.drop_first();
    assert(g9 =~= fs.skip(9));
    assert(g9[0] == fs[9]);
    let g10 = g9.drop_first();
    assert(g10 =~= fs.skip(10));
    assert(g10[0] == fs[10]);
    assert(find_field(fs, "requestId"@) == Some(fs[0].value));
    assert(find_field(fs, "resultCode"@) == find_field(g1, "resultCode"@));
    assert(find_field(g1, "resultCode"@) == Some(fs[1].value));
    assert(find_field(fs, "errorCode"@) == find_field(g1, "errorCode"@));
    assert(find_field(g1, "errorCode"@) == find_field(g2, "errorCode"@));
    assert(find_field(g2, "errorCode"@) == Some(fs[2].value));
    assert(find_field(fs, "message"@) == find_field(g1, "message"@));
    assert(find_field(g1, "message"@) == find_field(g2, "message"@));
    assert(find_field(g2, "message"@) == find_field(g3, "message"@));
    assert(find_field(g3, "message"@) == Some(fs[3].value));
    assert(find_field(fs, "contentType"@) == find_field(g1, "contentType"@));
    assert(find_field(g1, "contentType"@) == find_field(g2, "contentType"@));
    assert(find_field(g2, "contentType"@) == find_field(g3, "contentType"@));
    assert(find_field(g3, "contentType"@) == find_field(g4, "contentType"@));
    assert(find_field(g4, "contentType"@) == Some(fs[4].value));
    assert(find_field(fs, "content"@) == find_field(g1, "content"@));
    assert(find_field(g1, "content"@) == find_field(g2, "content"@));
    assert(find_field(g2, "content"@) == find_field(g3, "content"@));
    assert(find_field(g3, "content"@) == find_field(g4, "content"@));
    assert(find_field(g4, "content"@) == find_field(g5, "content"@));
    assert(find_field(g5, "content"@) == Some(fs[5].value));
    assert(find_field(fs, "md5"@) == find_field(g1, "md5"@));
    assert(find_field(g1, "md5"@) == find_field(g2, "md5"@));
    assert(find_field(g2, "md5"@) == find_field(g3, "md5"@));
    assert(find_field(g3, "md5"@) == find_field(g4, "md5"@));
    assert(find_field(g4, "md5"@) == find_field(g5, "md5"@));
    assert(find_field(g5, "md5"@) == find_field(g6, "md5"@));
    assert(find_field(g6, "md5"@) == Some(fs[6].value));
    assert(find_field(fs, "encryptedDataKey"@) == find_field(g1, "encryptedDataKey"@));
    assert(find_field(g1, "encryptedDataKey"@) == find_field(g2, "encryptedDataKey"@));
    assert(find_field(g2, "encryptedDataKey"@) == find_field(g3, "encryptedDataKey"@));
    assert(find_field(g3, "encryptedDataKey"@) == find_field(g4, "encryptedDataKey"@));
    assert(find_field(g4, "encryptedDataKey"@) == find_field(g5, "encryptedDataKey"@));
    assert(find_field(g5, "encryptedDataKey"@) == find_field(g6, "encryptedDataKey"@));
    assert(find_field(g6, "encryptedDataKey"@) == find_field(g7, "encryptedDataKey"@));
    assert(find_field(g7, "encryptedDataKey"@) == Some(fs[7].value));
    assert(find_field(fs, "tag"@) == find_field(g1, "tag"@));
    assert(find_field(g1, "tag"@) == find_field(g2, "tag"@));
    assert(find_field(g2, "tag"@) == find_field(g3, "tag"@));
    assert(find_field(g3, "tag"@) == find_field(g4, "tag"@));
    assert(find_field(g4, "tag"@) == find_field(g5, "tag"@));
    assert(find_field(g5, "tag"@) == find_field(g6, "tag"@));
    assert(find_field(g6, "tag"@) == find_field(g7, "tag"@));
    assert(find_field(g7, "tag"@) == find_field(g8, "tag"@));
    assert(find_field(g8, "tag"@) == Some(fs[8].value));
    assert(find_field(fs, "lastModified"@) == find_field(g1, "lastModified"@));
    assert(find_field(g1, "lastModified"@) == find_field(g2, "lastModified"@));
    assert(find_field(g2, "lastModified"@) == find_field(g3, "lastModified"@));
    assert(find_field(g3, "lastModified"@) == find_field(g4, "lastModified"@));
    assert(find_field(g4, "lastModified"@) == find_field(g5, "lastModified"@));
    assert(find_field(g5, "lastModified"@) == find_field(g6, "lastModified"@));
    assert(find_field(g6, "lastModified"@) == find_field(g7, "lastModified"@));
    assert(find_field(g7, "lastModified"@) == find_field(g8, "lastModified"@));
    assert(find_field(g8, "lastModified"@) == find_field(g9, "lastModified"@));
    assert(find_field(g9, "lastModified"@) == Some(fs[9].value));
    assert(find_field(fs, "beta"@) == find_field(g1, "beta"@));
    assert(find_field(g1, "beta"@) == find_field(g2, "beta"@));
    assert(find_field(g2, "beta"@) == find_field(g3, "beta"@));
    assert(find_field(g3, "beta"@) == find_field(g4, "beta"@));
    assert(find_field(g4, "beta"@) == find_field(g5, "beta"@));
    assert(find_field(g5, "beta"@) == find_field(g6, "beta"@));
    assert(find_field(g6, "beta"@) == find_field(g7, "beta"@));
    assert(find_field(g7, "beta"@) == find_field(g8, "beta"@));
    assert(find_field(g8, "beta"@) == find_field(g9, "beta"@));
    assert(find_field(g9, "beta"@) == find_field(g10, "beta"@));
    assert(find_field(g10, "beta"@) == Some(fs[10].value));
    assert(query_of_fields(query_fields(q)) == Some(q));
}

/// Encoding an acknowledgement as a document and reading the document
/// back yields the acknowledgement again, field for field.
pub proof fn lemma_ack_document_round_trip(a: AckResponseV)
    ensures
        ack_of_fields(ack_fields(a)) == Some(a),
{
    lemma_wire_names_distinct();
    lemma_wire_name_lens();
    reveal_strlit("resultCode");
    reveal_strlit("errorCode");
    reveal_strlit("message");
    let fs = ack_fields(a);
    assert(fs.len() == 4);
    let g1 = fs.drop_first();
    assert(g1 =~= fs.skip(1));
    assert(g1[0] == fs[1]);
    let g2 = g1.drop_first();
    assert(g2 =~= fs.skip(2));
    assert(g2[0] == fs[2]);
    let g3 = g2.drop_first();
    assert(g3 =~= fs.skip(3));
    assert(g3[0] == fs[3]);
    assert(find_field(fs, "requestId"@) == Some(fs[0].value));
    assert(find_field(fs, "resultCode"@) == find_field(g1, "resultCode"@));
    assert(find_field(g1, "resultCode"@) == Some(fs[1].value));
    assert(find_field(fs, "errorCode"@) == find_field(g1, "errorCode"@));
    assert(find_field(g1, "errorCode"@) == find_field(g2, "errorCode"@));
    assert(find_field(g2, "errorCode"@) == Some(fs[2].value));
    assert(find_field(fs, "message"@) == find_field(g1, "message"@));
    assert(find_field(g1, "message"@) == find_field(g2, "message"@));
    assert(find_field(g2, "message"@) == find_field(g3, "message"@));
    assert(find_field(g3, "message"@) == Some(fs[3].value));
    assert(ack_of_fields(ack_fields(a)) == Some(a));
}

proof fn lemma_ctx_members_round_trip(c: ContextV)
    ensures
        ctx_of_members(ctx_members(c)) == Some(c),
{
    reveal_strlit("dataId");
    reveal_strlit("group");
    reveal_strlit("tenant");
    assert(("dataId"@)[0] == 'd' && ("tenant"@)[0] == 't');
    assert(("group"@).len() == 5 && ("dataId"@).len() == 6 && ("tenant"@).len() == 6);
    reveal_with_fuel(crate::schema::find_member, 5);
    assert(ctx_of_members(ctx_members(c)) == Some(c));
}

proof fn lemma_ctx_list_round_trip(cs: Seq<ContextV>, acc: Seq<ContextV>)
    ensures
        ctxs_of(ctx_objs(cs), acc) == Some(acc + cs),
    decreases cs.len(),
{
    if cs.len() == 0 {
        assert(ctx_objs(cs).len() == 0);
        assert(acc + cs =~= acc);
    } else {
        lemma_ctx_members_round_trip(cs[0]);
        assert(ctx_objs(cs)[0] == ctx_members(cs[0]));
        assert(ctx_objs(cs).drop_first() =~= ctx_objs(cs.drop_first()));
        lemma_ctx_list_round_trip(cs.drop_first(), acc.push(cs[0]));
        assert(acc.push(cs[0]) + cs.drop_first() =~= acc + cs);
    }
}

/// Encoding a batch-listen reply as a document and reading the document
/// back yields the reply again, field for field, the order of the
/// changed configurations kept.
pub proof fn lemma_batch_document_round_trip(b: BatchListenResponseV)
    ensures
        batch_of_fields(batch_fields(b)) == Some(b),
{
    lemma_wire_names_distinct();
    lemma_wire_name_lens();
    reveal_strlit("resultCode");
    reveal_strlit("changedConfigs");
    reveal_strlit("errorCode");
    reveal_strlit("message");
    let fs = batch_fields(b);
    assert(fs.len() == 5);
    let g1 = fs.drop_first();
    assert(g1 =~= fs.skip(1));
    assert(g1[0] == fs[1]);
    let g2 = g1.drop_first();
    assert(g2 =~= fs.skip(2));
    assert(g2[0] == fs[2]);
    let g3 = g2.drop_first();
    assert(g3 =~= fs.skip(3));
    assert(g3[0] == fs[3]);
    let g4 = g3.drop_first();
    assert(g4 =~= fs.skip(4));
    assert(g4[0] == fs[4]);
    assert(find_field(fs, "requestId"@) == Some(fs[0].value));
    assert(find_field(fs, "resultCode"@) == find_field(g1, "resultCode"@));
    assert(find_field(g1, "resultCode"@) == Some(fs[1].value));
    assert(find_field(fs, "errorCode"@) == find_field(g1, "errorCode"@));
    assert(find_field(g1, "errorCode"@) == find_field(g2, "errorCode"@));
    assert(find_field(g2, "errorCode"@) == Some(fs[2].value));
    assert(find_field(fs, "message"@) == find_field(g1, "message"@));
    assert(find_field(g1, "message"@) == find_field(g2, "message"@));
    assert(find_field(g2, "message"@) == find_field(g3, "message"@));
    assert(find_field(g3, "message"@) == Some(fs[3].value));
    assert(find_field(fs, "changedConfigs"@) == find_field(g1, "changedConfigs"@));
    assert(find_field(g1, "changedConfigs"@) == find_field(g2, "changedConfigs"@));
    assert(find_field(g2, "changedConfigs"@) == find_field(g3, "changedConfigs"@));
    assert(find_field(g3, "changedConfigs"@) == find_field(g4, "changedConfigs"@));
    assert(find_field(g4, "changedConfigs"@) == Some(fs[4].value));
    match b.changed_configs {
        Some(cs) => {
            lemma_ctx_list_round_trip(cs, Seq::empty());
            assert(Seq::<ContextV>::empty() + cs =~= cs);
        },
        None => {},
    }
    assert(batch_of_fields(batch_fields(b)) == Some(b));
}

} // verus!
