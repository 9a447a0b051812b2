//! Shared application state: the registry of connected clients and the
//! capabilities every session works with.
//!
//! The registry is a plain vector here; the caller guards it for
//! concurrent access (many readers, one writer). Registration appends
//! unconditionally; deregistration removes every entry with the id and is
//! idempotent.

use vstd::prelude::*;

use crate::bert::BertModel;
use crate::chars::str_eq;
use crate::clock::utc_now_millis;
use crate::llm::LlmModel;
use crate::whisper::WhisperModel;

verus! {

/// One connected client: its identity and when it connected (milliseconds
/// of the system clock since the Unix epoch).
pub struct ClientInfo {
    pub id: String,
    pub connected_at: i64,
}

/// Whether no two registered clients share an id.
pub open spec fn ids_unique(clients: Seq<ClientInfo>) -> bool {
    forall|i: int, j: int|
        0 <= i < j < clients.len() ==> (#[trigger] clients[i]).id@ != (#[trigger] clients[j]).id@
}

/// The entries of `clients` whose id is not `id`, in order.
pub open spec fn without_id(clients: Seq<ClientInfo>, id: Seq<char>) -> Seq<ClientInfo> {
    clients.filter(|c: ClientInfo| c.id@ != id)
}

/// The shared state of the service: the client registry and the three
/// capabilities the pipeline uses.
pub struct AppState {
    /// The registered clients.
    pub clients: Vec<ClientInfo>,
    /// The transcription engine gateway, where an engine was loaded.
    pub whisper_model: Option<WhisperModel>,
    /// The generative-language-model corrector.
    pub llm_model: LlmModel,
    /// The masked-language-model corrector, where one was set up.
    pub bert_model: Option<BertModel>,
}

impl AppState {
    /// State with no engine and no correctors.
    pub fn new() -> (r: Self)
        ensures
            r.clients@ =~= Seq::<ClientInfo>::empty(),
            r.whisper_model is None,
            !r.llm_model.spec_enabled(),
            r.bert_model is None,
    {
        AppState {
            clients: Vec::new(),
            whisper_model: None,
            llm_model: LlmModel::default(),
            bert_model: None,
        }
    }

    /// State with a transcription engine only.
    pub fn with_whisper_model(whisper_model: WhisperModel) -> (r: Self)
        ensures
            r.clients@ =~= Seq::<ClientInfo>::empty(),
            r.whisper_model == Some(whisper_model),
            !r.llm_model.spec_enabled(),
            r.bert_model is None,
    {
        AppState {
            clients: Vec::new(),
            whisper_model: Some(whisper_model),
            llm_model: LlmModel::default(),
            bert_model: None,
        }
    }

    /// State with a generative corrector only.
    pub fn with_llm_model(llm_model: LlmModel) -> (r: Self)
        ensures
            r.clients@ =~= Seq::<ClientInfo>::empty(),
            r.whisper_model is None,
            r.llm_model == llm_model,
            r.bert_model is None,
    {
        AppState { clients: Vec::new(), whisper_model: None, llm_model, bert_model: None }
    }

    /// State with an engine (where one loaded) and a generative corrector.
    pub fn with_models(whisper_model: Option<WhisperModel>, llm_model: LlmModel) -> (r: Self)
        ensures
            r.clients@ =~= Seq::<ClientInfo>::empty(),
            r.whisper_model == whisper_model,
            r.llm_model == llm_model,
            r.bert_model is None,
    {
        AppState { clients: Vec::new(), whisper_model, llm_model, bert_model: None }
    }

    /// State with a masked-language-model corrector only.
    pub fn with_bert_model(bert_model: BertModel) -> (r: Self)
        ensures
            r.clients@ =~= Seq::<ClientInfo>::empty(),
            r.whisper_model is None,
            !r.llm_model.spec_enabled(),
            r.bert_model == Some(bert_model),
    {
        AppState {
            clients: Vec::new(),
            whisper_model: None,
            llm_model: LlmModel::default(),
            bert_model: Some(bert_model),
        }
    }

    /// State with every capability that loaded.
    pub fn with_all_models(
        whisper_model: Option<WhisperModel>,
        llm_model: LlmModel,
        bert_model: Option<BertModel>,
    ) -> (r: Self)
        ensures
            r.clients@ =~= Seq::<ClientInfo>::empty(),
            r.whisper_model == whisper_model,
            r.llm_model == llm_model,
            r.bert_model == bert_model,
    {
        AppState { clients: Vec::new(), whisper_model, llm_model, bert_model }
    }

    /// Registers a client: appends one entry with the given id,
    /// unconditionally. Every other entry, and every capability, is left
    /// as it was.
    pub fn add_client(&mut self, client_id: String)
        ensures
            final(self).clients@.len() == old(self).clients@.len() + 1,
            forall|i: int|
                0 <= i < old(self).clients@.len() ==> final(self).clients@[i] == old(
                    self,
                ).clients@[i],
            final(self).clients@.last().id@ == client_id@,
            final(self).whisper_model == old(self).whisper_model,
            final(self).llm_model == old(self).llm_model,
            final(self).bert_model == old(self).bert_model,
    {
        let connected_at = utc_now_millis();
        self.clients.push(ClientInfo { id: client_id, connected_at });
    }

    /// Deregisters a client: removes every entry whose id matches, keeping
    /// all the others in order. Deregistering an absent id is a no-op.
    pub fn remove_client(&mut self, client_id: &str)
        ensures
            final(self).clients@ == without_id(old(self).clients@, client_id@),
            final(self).whisper_model == old(self).whisper_model,
            final(self).llm_model == old(self).llm_model,
            final(self).bert_model == old(self).bert_model,
    {
        let n = self.clients.len();
        let mut kept: Vec<ClientInfo> = Vec::new();
        let mut i: usize = 0;
        proof {
            reveal(Seq::filter);
            assert(kept@ =~= old(self).clients@.take(0).filter(
                |c: ClientInfo| c.id@ != client_id@,
            ));
        }
        while i < n
            invariant
                n == self.clients@.len(),
                self.clients@ == old(self).clients@,
                i <= n,
                kept@ == old(self).clients@.take(i as int).filter(
                    |c: ClientInfo| c.id@ != client_id@,
                ),
            decreases n - i,
        {
            let ghost pred = |c: ClientInfo| c.id@ != client_id@;
            let ghost upto = old(self).clients@.take(i as int);
            let ghost next = old(self).clients@.take(i as int + 1);
            proof {
                reveal(Seq::filter);
                assert(next.drop_last() =~= upto);
                assert(next.last() == old(self).clients@[i as int]);
                assert(next.filter(pred) == if pred(next.last()) {
                    upto.filter(pred).push(next.last())
                } else {
                    upto.filter(pred)
                });
            }
            let keep = !str_eq(self.clients[i].id.as_str(), client_id);
            if keep {
                let entry = ClientInfo {
                    id: self.clients[i].id.clone(),
                    connected_at: self.clients[i].connected_at,
                };
                proof {
                    assert(entry.id@ == old(self).clients@[i as int].id@);
                }
                kept.push(entry);
                proof {
                    assert(kept@ =~= upto.filter(pred).push(next.last()));
                }
            }
            i = i + 1;
        }
        proof {
            assert(old(self).clients@.take(n as int) =~= old(self).clients@);
        }
        self.clients = kept;
    }

    /// How many clients are registered.
    pub fn client_count(&self) -> (r: usize)
        ensures
            r == self.clients@.len(),
    {
        self.clients.len()
    }
}

impl Default for AppState {
    /// The state the service starts with: empty registry, no capabilities.
    fn default() -> (r: Self)
        ensures
            r.clients@ =~= Seq::<ClientInfo>::empty(),
            r.whisper_model is None,
            !r.llm_model.spec_enabled(),
            r.bert_model is None,
    {
        Self::new()
    }
}

/// Law: closing one session leaves every other session's entry intact —
/// with unique ids, deregistering the id at position `k` removes exactly
/// that entry, so the count decreases by exactly one and the others keep
/// their order.
pub proof fn lemma_deregister_isolation(clients: Seq<ClientInfo>, id: Seq<char>, k: int)
    requires
        ids_unique(clients),
        0 <= k < clients.len(),
        clients[k].id@ == id,
    ensures
        without_id(clients, id) == clients.remove(k),
        without_id(clients, id).len() == clients.len() - 1,
    decreases clients.len(),
{
    reveal(Seq::filter);
    let pred = |c: ClientInfo| c.id@ != id;
    if k == clients.len() - 1 {
        assert forall|i: int|
            0 <= i < clients.drop_last().len() implies (#[trigger] clients.drop_last()[i]).id@
            != id by {
            assert(clients.drop_last()[i] == clients[i]);
            assert(clients[i].id@ != clients[k].id@);
        }
        lemma_filter_all_kept(clients.drop_last(), id);
        assert(!pred(clients.last()));
        assert(clients.drop_last() =~= clients.remove(k));
    } else {
        assert forall|i: int, j: int|
            0 <= i < j < clients.drop_last().len() implies (#[trigger] clients.drop_last()[
            i
        ]).id@ != (#[trigger] clients.drop_last()[j]).id@ by {
            assert(clients.drop_last()[i] == clients[i]);
            assert(clients.drop_last()[j] == clients[j]);
        }
        assert(clients.drop_last()[k] == clients[k]);
        lemma_deregister_isolation(clients.drop_last(), id, k);
        assert(clients.last().id@ != clients[k].id@);
        assert(pred(clients.last()));
        assert(without_id(clients, id) == clients.drop_last().remove(k).push(clients.last()));
        assert(clients.drop_last().remove(k).push(clients.last()) =~= clients.remove(k));
    }
}

/// Law: deregistration is complete — no entry with the deregistered id
/// remains.
pub proof fn lemma_deregister_complete(clients: Seq<ClientInfo>, id: Seq<char>)
    ensures
        forall|i: int|
            0 <= i < without_id(clients, id).len() ==> (#[trigger] without_id(clients, id)[
                i
            ]).id@ != id,
    decreases clients.len(),
{
    reveal(Seq::filter);
    if clients.len() > 0 {
        lemma_deregister_complete(clients.drop_last(), id);
        let w = without_id(clients, id);
        let wd = without_id(clients.drop_last(), id);
        if clients.last().id@ != id {
            assert(w == wd.push(clients.last()));
        } else {
            assert(w == wd);
        }
    }
}

/// Law: registering a client whose id is not yet taken keeps the
/// registry's ids unique.
pub proof fn lemma_register_fresh_keeps_unique(clients: Seq<ClientInfo>, entry: ClientInfo)
    requires
        ids_unique(clients),
        forall|i: int| 0 <= i < clients.len() ==> (#[trigger] clients[i]).id@ != entry.id@,
    ensures
        ids_unique(clients.push(entry)),
{
    let all = clients.push(entry);
    assert forall|i: int, j: int|
        0 <= i < j < all.len() implies (#[trigger] all[i]).id@ != (#[trigger] all[j]).id@ by {
        if j < all.len() - 1 {
            assert(all[i] == clients[i]);
            assert(all[j] == clients[j]);
        } else {
            assert(all[i] == clients[i]);
            assert(all[j] == entry);
        }
    }
}

/// With no entry carrying `id`, deregistering it removes nothing.
proof fn lemma_filter_all_kept(clients: Seq<ClientInfo>, id: Seq<char>)
    requires
        forall|i: int| 0 <= i < clients.len() ==> (#[trigger] clients[i]).id@ != id,
    ensures
        without_id(clients, id) == clients,
    decreases clients.len(),
{
    reveal(Seq::filter);
    if clients.len() > 0 {
        lemma_filter_all_kept(clients.drop_last(), id);
        assert(without_id(clients, id) =~= clients);
    }
}

} // verus!