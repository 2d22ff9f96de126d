//! The documents that are open, one for each client.
//!
//! The sessions stand in a list that is searched in order. Under a hash map
//! keyed by the clients' addresses, which are strings, the verifier can be
//! told nothing about what a lookup finds.

use vstd::prelude::*;
use crate::document::{Document, DocumentState};

verus! {

/// The document of one client.
struct Session {
    /// The address that the client connected from.
    client_address: String,
    document: Document,
}

/// The open documents, each kept under the address of its client.
pub struct Editor {
    /// Of two sessions of one client the earlier counts.
    sessions: Vec<Session>,
}

/// The documents of `sessions` by client address.
spec fn documents_of(sessions: Seq<Session>) -> Map<Seq<char>, DocumentState>
    decreases sessions.len(),
{
    if sessions.len() == 0 {
        Map::empty()
    } else {
        documents_of(sessions.drop_first()).insert(
            sessions[0].client_address@,
            sessions[0].document@,
        )
    }
}

/// The index of the first session of the client at `address`, or the number
/// of sessions where the client has none.
spec fn session_of(sessions: Seq<Session>, address: Seq<char>) -> int
    decreases sessions.len(),
{
    if sessions.len() == 0 {
        0
    } else if sessions[0].client_address@ == address {
        0
    } else {
        1 + session_of(sessions.drop_first(), address)
    }
}

/// The first session of a client is the one that its document is read
/// from, and a client without a session has no document.
proof fn lemma_session_of(sessions: Seq<Session>, address: Seq<char>)
    ensures
        0 <= session_of(sessions, address) <= sessions.len(),
        forall|i: int|
            0 <= i < session_of(sessions, address) ==> (
            #[trigger] sessions[i]).client_address@ != address,
        session_of(sessions, address) < sessions.len() ==> sessions[session_of(
            sessions,
            address,
        )].client_address@ == address && documents_of(sessions).contains_key(address)
            && documents_of(sessions)[address] == sessions[session_of(
            sessions,
            address,
        )].document@,
        session_of(sessions, address) == sessions.len() ==> !documents_of(sessions).contains_key(
            address,
        ),
    decreases sessions.len(),
{
    if sessions.len() > 0 {
        let rest = sessions.drop_first();
        lemma_session_of(rest, address);
        if sessions[0].client_address@ != address {
            assert forall|i: int| 0 <= i < session_of(sessions, address) implies (
            #[trigger] sessions[i]).client_address@ != address by {
                if i > 0 {
                    assert(sessions[i] == rest[i - 1]);
                }
            }
            if session_of(rest, address) < rest.len() {
                assert(rest[session_of(rest, address)] == sessions[session_of(sessions, address)]);
            }
        }
    }
}

/// A new document in the first session of a client is the client's new
/// document; the other clients keep theirs.
proof fn lemma_session_changed(sessions: Seq<Session>, i: int, changed: Session)
    requires
        0 <= i < sessions.len(),
        i == session_of(sessions, changed.client_address@),
    ensures
        documents_of(sessions.update(i, changed)) == documents_of(sessions).insert(
            changed.client_address@,
            changed.document@,
        ),
    decreases sessions.len(),
{
    let address = changed.client_address@;
    let after = sessions.update(i, changed);
    let rest = sessions.drop_first();
    lemma_session_of(rest, address);
    if i == 0 {
        assert(sessions[0].client_address@ == address);
        assert(after[0] == changed);
        assert(after.drop_first() =~= rest);
        assert(documents_of(after) == documents_of(rest).insert(address, changed.document@));
        assert(documents_of(after) =~= documents_of(sessions).insert(address, changed.document@));
    } else {
        assert(sessions[0].client_address@ != address);
        assert(after[0] == sessions[0]);
        assert(after.drop_first() =~= rest.update(i - 1, changed));
        lemma_session_changed(rest, i - 1, changed);
        assert(documents_of(after) =~= documents_of(sessions).insert(address, changed.document@));
    }
}

/// A session added for a client that has none gives the client its
/// document; the other clients keep theirs.
proof fn lemma_session_added(sessions: Seq<Session>, added: Session)
    requires
        session_of(sessions, added.client_address@) == sessions.len(),
    ensures
        documents_of(sessions.push(added)) == documents_of(sessions).insert(
            added.client_address@,
            added.document@,
        ),
    decreases sessions.len(),
{
    let after = sessions.push(added);
    if sessions.len() == 0 {
        assert(after.drop_first() =~= sessions);
        assert(documents_of(after.drop_first()) =~= Map::empty());
    } else {
        let rest = sessions.drop_first();
        assert(after.drop_first() =~= rest.push(added));
        lemma_session_added(rest, added);
        assert(documents_of(after) =~= documents_of(sessions).insert(
            added.client_address@,
            added.document@,
        ));
    }
}

/// Without one of the sessions of a client the other clients have the
/// documents they had.
proof fn lemma_session_removed(sessions: Seq<Session>, i: int)
    requires
        0 <= i < sessions.len(),
    ensures
        documents_of(sessions.remove(i)).remove(sessions[i].client_address@) == documents_of(
            sessions,
        ).remove(sessions[i].client_address@),
    decreases sessions.len(),
{
    let address = sessions[i].client_address@;
    let after = sessions.remove(i);
    let rest = sessions.drop_first();
    if i == 0 {
        assert(after =~= rest);
        assert(documents_of(after).remove(address) =~= documents_of(sessions).remove(address));
    } else {
        assert(after.drop_first() =~= rest.remove(i - 1));
        assert(after[0] == sessions[0]);
        lemma_session_removed(rest, i - 1);
        assert(documents_of(after).remove(address) =~= documents_of(after.drop_first()).remove(
            address,
        ).insert(after[0].client_address@, after[0].document@).remove(address));
        assert(documents_of(sessions).remove(address) =~= documents_of(rest).remove(
            address,
        ).insert(sessions[0].client_address@, sessions[0].document@).remove(address));
    }
}

impl View for Editor {
    type V = Map<Seq<char>, DocumentState>;

    /// The open documents by the address of their client.
    closed spec fn view(&self) -> Map<Seq<char>, DocumentState> {
        documents_of(self.sessions@)
    }
}

impl Default for Editor {
    /// An editor without documents.
    fn default() -> (editor: Editor)
        ensures
            editor@ == Map::<Seq<char>, DocumentState>::empty(),
    {
        Editor { sessions: Vec::new() }
    }
}

impl Editor {
    /// The index of the first session of the client at `client_address`,
    /// or the number of sessions where the client has none.
    fn find(&self, client_address: &str) -> (i: usize)
        ensures
            i == session_of(self.sessions@, client_address@),
            i <= self.sessions@.len(),
    {
        let address = String::from_str(client_address);
        let mut i: usize = 0;
        assert(self.sessions@.skip(0) =~= self.sessions@);
        while i < self.sessions.len()
            invariant
                i <= self.sessions@.len(),
                address@ == client_address@,
                session_of(self.sessions@, client_address@) == i + session_of(
                    self.sessions@.skip(i as int),
                    client_address@,
                ),
            decreases self.sessions@.len() - i,
        {
            assert(self.sessions@.skip(i as int).drop_first() =~= self.sessions@.skip(i + 1));
            assert(self.sessions@.skip(i as int)[0] == self.sessions@[i as int]);
            if self.sessions[i].client_address == address {
                return i;
            }
            i = i + 1;
        }
        i
    }

    /// The document of the client at `client_address`, if it has one.
    pub fn document(&self, client_address: &str) -> (document: Option<&Document>)
        ensures
            match document {
                Some(document) => self@.contains_key(client_address@) && document@
                    == self@[client_address@],
                None => !self@.contains_key(client_address@),
            },
    {
        let i = self.find(client_address);
        proof {
            lemma_session_of(self.sessions@, client_address@);
        }
        if i < self.sessions.len() {
            Some(&self.sessions[i].document)
        } else {
            None
        }
    }

    /// The document of the client at `client_address`, if it has one, for
    /// changing it.
    pub fn document_mut(&mut self, client_address: &str) -> (document: Option<&mut Document>)
        ensures
            match document {
                Some(document) => old(self)@.contains_key(client_address@) && document@ == old(
                    self,
                )@[client_address@] && final(self)@ == old(self)@.insert(
                    client_address@,
                    final(document)@,
                ),
                None => !old(self)@.contains_key(client_address@) && final(self)@ == old(self)@,
            },
    {
        let i = self.find(client_address);
        proof {
            lemma_session_of(self.sessions@, client_address@);
        }
        if i < self.sessions.len() {
            let document = &mut self.sessions[i].document;
            proof {
                lemma_session_changed(
                    old(self).sessions@,
                    i as int,
                    Session {
                        client_address: old(self).sessions@[i as int].client_address,
                        document: *final(document),
                    },
                );
            }
            Some(document)
        } else {
            None
        }
    }

    /// Makes the text `text` of the file `path` the document of the client
    /// at `client_address`, in place of any it had.
    pub fn open_document(&mut self, text: &str, path: &str, client_address: &str)
        ensures
            final(self)@ == old(self)@.insert(
                client_address@,
                Document::opened(text@, path@),
            ),
    {
        let document = Document::from_text(text, Some(String::from_str(path)));
        self.keep_document(document, client_address);
    }

    /// Makes `document` the document of the client at `client_address`, in
    /// place of any it had.
    pub fn keep_document(&mut self, document: Document, client_address: &str)
        ensures
            final(self)@ == old(self)@.insert(client_address@, document@),
    {
        let i = self.find(client_address);
        let session = Session { client_address: String::from_str(client_address), document };
        proof {
            lemma_session_of(self.sessions@, client_address@);
        }
        if i < self.sessions.len() {
            proof {
                lemma_session_changed(self.sessions@, i as int, session);
            }
            self.sessions.set(i, session);
        } else {
            proof {
                lemma_session_added(self.sessions@, session);
            }
            self.sessions.push(session);
        }
    }

    /// Gives up the document of the client at `client_address`, if it has
    /// one.
    pub fn close_document(&mut self, client_address: &str)
        ensures
            final(self)@ == old(self)@.remove(client_address@),
    {
        let address = String::from_str(client_address);
        let mut i: usize = 0;
        while i < self.sessions.len()
            invariant
                i <= self.sessions@.len(),
                address@ == client_address@,
                forall|j: int|
                    0 <= j < i ==> (#[trigger] self.sessions@[j]).client_address@
                        != client_address@,
                documents_of(self.sessions@).remove(client_address@) == old(self)@.remove(
                    client_address@,
                ),
            decreases self.sessions@.len() - i,
        {
            if self.sessions[i].client_address == address {
                proof {
                    lemma_session_removed(self.sessions@, i as int);
                }
                let _ = self.sessions.remove(i);
            } else {
                i = i + 1;
            }
        }
        proof {
            lemma_no_session(self.sessions@, client_address@);
            assert(documents_of(self.sessions@).remove(client_address@) =~= documents_of(
                self.sessions@,
            ));
        }
    }
}

/// Where no session is of a client, the client has no document.
proof fn lemma_no_session(sessions: Seq<Session>, address: Seq<char>)
    requires
        forall|j: int| 0 <= j < sessions.len() ==> (#[trigger] sessions[j]).client_address@ != address,
    ensures
        !documents_of(sessions).contains_key(address),
    decreases sessions.len(),
{
    if sessions.len() > 0 {
        let rest = sessions.drop_first();
        assert forall|j: int| 0 <= j < rest.len() implies (#[trigger] rest[j]).client_address@
            != address by {
            assert(rest[j] == sessions[j + 1]);
        }
        lemma_no_session(rest, address);
        assert(sessions[0].client_address@ != address);
    }
}

} // verus!
