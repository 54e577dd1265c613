//! The marine species record, its payload, and its stored form.

use crate::codec::{
    lemma_parse_optional, lemma_parse_text, lemma_parse_u64, optional_bytes, parse_optional,
    parse_text, parse_u64, read_optional, read_text, read_u64, remainder, text_bytes, text_fits,
    u64_bytes, write_optional, write_text, write_u64,
};
use crate::error::{Error, ErrorView};
use crate::record_store::MAX_RECORD_SIZE;
use crate::text::copy_string;
use vstd::prelude::*;

verus! {

/// An observed species, owned by the researcher who recorded it.
/// `taxonomy_id` names a taxonomy without any promise that it exists.
#[derive(Clone, Debug, PartialEq, Eq, Default)]
pub struct MarineSpecie {
    pub id: u64,
    pub researcher: String,
    pub name: String,
    pub habitat: String,
    pub taxonomy_id: u64,
    pub conservation_status: String,
    pub created_at: u64,
    pub updated_at: Option<u64>,
}

pub struct MarineSpecieView {
    pub id: u64,
    pub researcher: Seq<char>,
    pub name: Seq<char>,
    pub habitat: Seq<char>,
    pub taxonomy_id: u64,
    pub conservation_status: Seq<char>,
    pub created_at: u64,
    pub updated_at: Option<u64>,
}

impl View for MarineSpecie {
    type V = MarineSpecieView;

    open spec fn view(&self) -> MarineSpecieView {
        MarineSpecieView {
            id: self.id,
            researcher: self.researcher@,
            name: self.name@,
            habitat: self.habitat@,
            taxonomy_id: self.taxonomy_id,
            conservation_status: self.conservation_status@,
            created_at: self.created_at,
            updated_at: self.updated_at,
        }
    }
}

/// What a caller supplies to create or update a marine species.
#[derive(Clone, Debug, PartialEq, Eq, Default)]
pub struct MarineSpecieInput {
    pub name: String,
    pub habitat: String,
    pub taxonomy_id: u64,
    pub conservation_status: String,
}

pub struct MarineSpecieInputView {
    pub name: Seq<char>,
    pub habitat: Seq<char>,
    pub taxonomy_id: u64,
    pub conservation_status: Seq<char>,
}

impl View for MarineSpecieInput {
    type V = MarineSpecieInputView;

    open spec fn view(&self) -> MarineSpecieInputView {
        MarineSpecieInputView {
            name: self.name@,
            habitat: self.habitat@,
            taxonomy_id: self.taxonomy_id,
            conservation_status: self.conservation_status@,
        }
    }
}

impl MarineSpecieView {
    /// The record that a creation stores: the payload's fields under a new
    /// id, owned by `researcher`, not yet updated.
    pub open spec fn created(
        id: u64,
        researcher: Seq<char>,
        input: MarineSpecieInputView,
        now: u64,
    ) -> MarineSpecieView {
        MarineSpecieView {
            id,
            researcher,
            name: input.name,
            habitat: input.habitat,
            taxonomy_id: input.taxonomy_id,
            conservation_status: input.conservation_status,
            created_at: now,
            updated_at: None,
        }
    }

    /// The record that an update stores: id, owner and creation time stay,
    /// the payload's fields replace the others, and the update is dated.
    pub open spec fn updated(self, input: MarineSpecieInputView, now: u64) -> MarineSpecieView {
        MarineSpecieView {
            id: self.id,
            researcher: self.researcher,
            name: input.name,
            habitat: input.habitat,
            taxonomy_id: input.taxonomy_id,
            conservation_status: input.conservation_status,
            created_at: self.created_at,
            updated_at: Some(now),
        }
    }

    /// Whether every text of the record is short enough to be written.
    pub open spec fn fits(self) -> bool {
        &&& text_fits(self.researcher)
        &&& text_fits(self.name)
        &&& text_fits(self.habitat)
        &&& text_fits(self.conservation_status)
    }

    /// The stored form of the record: its fields in declaration order.
    pub open spec fn bytes(self) -> Seq<u8> {
        u64_bytes(self.id) + (text_bytes(self.researcher) + (text_bytes(self.name) + (text_bytes(
            self.habitat,
        ) + (u64_bytes(self.taxonomy_id) + (text_bytes(self.conservation_status) + (u64_bytes(
            self.created_at,
        ) + optional_bytes(self.updated_at)))))))
    }

    /// The record that `input` is the stored form of, if it is one.
    pub open spec fn parse(input: Seq<u8>) -> Option<MarineSpecieView> {
        let id = parse_u64(input);
        let researcher = parse_text(remainder(id));
        let name = parse_text(remainder(researcher));
        let habitat = parse_text(remainder(name));
        let taxonomy_id = parse_u64(remainder(habitat));
        let conservation_status = parse_text(remainder(taxonomy_id));
        let created_at = parse_u64(remainder(conservation_status));
        let updated_at = parse_optional(remainder(created_at));
        if id is Some && researcher is Some && name is Some && habitat is Some && taxonomy_id is Some
            && conservation_status is Some && created_at is Some && updated_at is Some
            && remainder(updated_at).len() == 0 {
            Some(
                MarineSpecieView {
                    id: id.unwrap().0,
                    researcher: researcher.unwrap().0,
                    name: name.unwrap().0,
                    habitat: habitat.unwrap().0,
                    taxonomy_id: taxonomy_id.unwrap().0,
                    conservation_status: conservation_status.unwrap().0,
                    created_at: created_at.unwrap().0,
                    updated_at: updated_at.unwrap().0,
                },
            )
        } else {
            None
        }
    }

    /// Parsing the stored form of a record gives the record back.
    pub proof fn lemma_parse_bytes(self)
        requires
            self.fits(),
        ensures
            MarineSpecieView::parse(self.bytes()) == Some(self),
    {
        let r7 = optional_bytes(self.updated_at);
        let r6 = u64_bytes(self.created_at) + r7;
        let r5 = text_bytes(self.conservation_status) + r6;
        let r4 = u64_bytes(self.taxonomy_id) + r5;
        let r3 = text_bytes(self.habitat) + r4;
        let r2 = text_bytes(self.name) + r3;
        let r1 = text_bytes(self.researcher) + r2;
        lemma_parse_u64(self.id, r1);
        lemma_parse_text(self.researcher, r2);
        lemma_parse_text(self.name, r3);
        lemma_parse_text(self.habitat, r4);
        lemma_parse_u64(self.taxonomy_id, r5);
        lemma_parse_text(self.conservation_status, r6);
        lemma_parse_u64(self.created_at, r7);
        lemma_parse_optional(self.updated_at, Seq::empty());
    }
}

impl MarineSpecie {
    /// A copy of the record.
    pub fn copy(&self) -> (copy: MarineSpecie)
        ensures
            copy@ == self@,
    {
        MarineSpecie {
            id: self.id,
            researcher: copy_string(&self.researcher),
            name: copy_string(&self.name),
            habitat: copy_string(&self.habitat),
            taxonomy_id: self.taxonomy_id,
            conservation_status: copy_string(&self.conservation_status),
            created_at: self.created_at,
            updated_at: self.updated_at,
        }
    }

    /// The record that a creation stores.
    pub fn created(id: u64, researcher: &String, input: MarineSpecieInput, now: u64) -> (record:
        MarineSpecie)
        ensures
            record@ == MarineSpecieView::created(id, researcher@, input@, now),
    {
        MarineSpecie {
            id,
            researcher: copy_string(researcher),
            name: input.name,
            habitat: input.habitat,
            taxonomy_id: input.taxonomy_id,
            conservation_status: input.conservation_status,
            created_at: now,
            updated_at: None,
        }
    }

    /// The record that an update of `self` stores.
    pub fn updated(self, input: MarineSpecieInput, now: u64) -> (record: MarineSpecie)
        ensures
            record@ == self@.updated(input@, now),
    {
        MarineSpecie {
            id: self.id,
            researcher: self.researcher,
            name: input.name,
            habitat: input.habitat,
            taxonomy_id: input.taxonomy_id,
            conservation_status: input.conservation_status,
            created_at: self.created_at,
            updated_at: Some(now),
        }
    }

    /// The stored form of the record.
    pub fn encode(&self) -> (bytes: Vec<u8>)
        ensures
            bytes@ == self@.bytes(),
            self@.fits(),
    {
        let ghost r7 = Seq::<u8>::empty();
        let ghost r6 = optional_bytes(self.updated_at) + r7;
        let ghost r5 = u64_bytes(self.created_at) + r6;
        let ghost r4 = text_bytes(self.conservation_status@) + r5;
        let ghost r3 = u64_bytes(self.taxonomy_id) + r4;
        let ghost r2 = text_bytes(self.habitat@) + r3;
        let ghost r1 = text_bytes(self.name@) + r2;
        let ghost r0 = text_bytes(self.researcher@) + r1;
        let mut out: Vec<u8> = Vec::new();
        write_u64(&mut out, self.id, Ghost(r0));
        write_text(&mut out, &self.researcher, Ghost(r1));
        write_text(&mut out, &self.name, Ghost(r2));
        write_text(&mut out, &self.habitat, Ghost(r3));
        write_u64(&mut out, self.taxonomy_id, Ghost(r4));
        write_text(&mut out, &self.conservation_status, Ghost(r5));
        write_u64(&mut out, self.created_at, Ghost(r6));
        write_optional(&mut out, self.updated_at, Ghost(r7));
        out
    }

    /// Whether the record can be stored: fails with `EncodingError` where
    /// its stored form is longer than `MAX_RECORD_SIZE`.
    pub fn check_size(&self) -> (checked: Result<(), Error>)
        ensures
            match checked {
                Ok(_) => self@.bytes().len() <= MAX_RECORD_SIZE,
                Err(error) => self@.bytes().len() > MAX_RECORD_SIZE && error@
                    == (ErrorView::EncodingError {
                    size: self@.bytes().len() as usize,
                    max_size: MAX_RECORD_SIZE,
                }),
            },
    {
        let size: usize = self.encode().len();
        if size <= MAX_RECORD_SIZE {
            Ok(())
        } else {
            Err(Error::EncodingError { size, max_size: MAX_RECORD_SIZE })
        }
    }

    /// Reads a record from its stored form.
    pub fn decode(input: &[u8]) -> (record: Option<MarineSpecie>)
        ensures
            match record {
                Some(marinespecie) => MarineSpecieView::parse(input@) == Some(marinespecie@),
                None => MarineSpecieView::parse(input@) is None,
            },
    {
        assert(input@.skip(0) =~= input@);
        let (id, next) = match read_u64(input, 0) {
            Some(read) => read,
            None => { return None; },
        };
        let (researcher, next) = match read_text(input, next) {
            Some(read) => read,
            None => { return None; },
        };
        let (name, next) = match read_text(input, next) {
            Some(read) => read,
            None => { return None; },
        };
        let (habitat, next) = match read_text(input, next) {
            Some(read) => read,
            None => { return None; },
        };
        let (taxonomy_id, next) = match read_u64(input, next) {
            Some(read) => read,
            None => { return None; },
        };
        let (conservation_status, next) = match read_text(input, next) {
            Some(read) => read,
            None => { return None; },
        };
        let (created_at, next) = match read_u64(input, next) {
            Some(read) => read,
            None => { return None; },
        };
        let (updated_at, next) = match read_optional(input, next) {
            Some(read) => read,
            None => { return None; },
        };
        if next != input.len() {
            return None;
        }
        Some(
            MarineSpecie {
                id,
                researcher,
                name,
                habitat,
                taxonomy_id,
                conservation_status,
                created_at,
                updated_at,
            },
        )
    }
}

} // verus!
