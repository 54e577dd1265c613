//! The taxonomy record, its payload, and its stored form.

use crate::codec::{
    lemma_parse_optional, lemma_parse_text, lemma_parse_u64, optional_bytes, parse_optional,
    parse_text, parse_u64, read_optional, read_text, read_u64, remainder, text_bytes, text_fits,
    u64_bytes, write_optional, write_text, write_u64,
};
use crate::error::{Error, ErrorView};
use crate::record_store::MAX_RECORD_SIZE;
use crate::text::copy_string;
use vstd::prelude::*;

verus! {

/// A biological classification, owned by the researcher who created it.
#[derive(Clone, Debug, PartialEq, Eq)]
pub struct Taxonomy {
    pub id: u64,
    pub researcher: String,
    pub kingdom: String,
    pub phylum: String,
    pub class: String,
    pub order: String,
    pub family: String,
    pub genus: String,
    pub species: String,
    pub created_at: u64,
    pub updated_at: Option<u64>,
}

pub struct TaxonomyView {
    pub id: u64,
    pub researcher: Seq<char>,
    pub kingdom: Seq<char>,
    pub phylum: Seq<char>,
    pub class: Seq<char>,
    pub order: Seq<char>,
    pub family: Seq<char>,
    pub genus: Seq<char>,
    pub species: Seq<char>,
    pub created_at: u64,
    pub updated_at: Option<u64>,
}

impl View for Taxonomy {
    type V = TaxonomyView;

    open spec fn view(&self) -> TaxonomyView {
        TaxonomyView {
            id: self.id,
            researcher: self.researcher@,
            kingdom: self.kingdom@,
            phylum: self.phylum@,
            class: self.class@,
            order: self.order@,
            family: self.family@,
            genus: self.genus@,
            species: self.species@,
            created_at: self.created_at,
            updated_at: self.updated_at,
        }
    }
}

/// What a caller supplies to create or update a taxonomy.
#[derive(Clone, Debug, PartialEq, Eq, Default)]
pub struct TaxonomyInput {
    pub kingdom: String,
    pub phylum: String,
    pub class: String,
    pub order: String,
    pub family: String,
    pub genus: String,
    pub species: String,
}

pub struct TaxonomyInputView {
    pub kingdom: Seq<char>,
    pub phylum: Seq<char>,
    pub class: Seq<char>,
    pub order: Seq<char>,
    pub family: Seq<char>,
    pub genus: Seq<char>,
    pub species: Seq<char>,
}

impl View for TaxonomyInput {
    type V = TaxonomyInputView;

    open spec fn view(&self) -> TaxonomyInputView {
        TaxonomyInputView {
            kingdom: self.kingdom@,
            phylum: self.phylum@,
            class: self.class@,
            order: self.order@,
            family: self.family@,
            genus: self.genus@,
            species: self.species@,
        }
    }
}

impl TaxonomyView {
    /// The record that a creation stores: the payload's fields under a new
    /// id, owned by `researcher`, not yet updated.
    pub open spec fn created(
        id: u64,
        researcher: Seq<char>,
        input: TaxonomyInputView,
        now: u64,
    ) -> TaxonomyView {
        TaxonomyView {
            id,
            researcher,
            kingdom: input.kingdom,
            phylum: input.phylum,
            class: input.class,
            order: input.order,
            family: input.family,
            genus: input.genus,
            species: input.species,
            created_at: now,
            updated_at: None,
        }
    }

    /// The record that an update stores: id, owner and creation time stay,
    /// the payload's fields replace the others, and the update is dated.
    pub open spec fn updated(self, input: TaxonomyInputView, now: u64) -> TaxonomyView {
        TaxonomyView {
            id: self.id,
            researcher: self.researcher,
            kingdom: input.kingdom,
            phylum: input.phylum,
            class: input.class,
            order: input.order,
            family: input.family,
            genus: input.genus,
            species: input.species,
            created_at: self.created_at,
            updated_at: Some(now),
        }
    }

    /// Whether every text of the record is short enough to be written.
    pub open spec fn fits(self) -> bool {
        &&& text_fits(self.researcher)
        &&& text_fits(self.kingdom)
        &&& text_fits(self.phylum)
        &&& text_fits(self.class)
        &&& text_fits(self.order)
        &&& text_fits(self.family)
        &&& text_fits(self.genus)
        &&& text_fits(self.species)
    }

    /// The stored form of the record: its fields in declaration order.
    pub open spec fn bytes(self) -> Seq<u8> {
        u64_bytes(self.id) + (text_bytes(self.researcher) + (text_bytes(self.kingdom) + (text_bytes(
            self.phylum,
        ) + (text_bytes(self.class) + (text_bytes(self.order) + (text_bytes(self.family) + (
        text_bytes(self.genus) + (text_bytes(self.species) + (u64_bytes(self.created_at)
            + optional_bytes(self.updated_at))))))))))
    }

    /// The record that `input` is the stored form of, if it is one.
    pub open spec fn parse(input: Seq<u8>) -> Option<TaxonomyView> {
        let id = parse_u64(input);
        let researcher = parse_text(remainder(id));
        let kingdom = parse_text(remainder(researcher));
        let phylum = parse_text(remainder(kingdom));
        let class = parse_text(remainder(phylum));
        let order = parse_text(remainder(class));
        let family = parse_text(remainder(order));
        let genus = parse_text(remainder(family));
        let species = parse_text(remainder(genus));
        let created_at = parse_u64(remainder(species));
        let updated_at = parse_optional(remainder(created_at));
        if id is Some && researcher is Some && kingdom is Some && phylum is Some && class is Some
            && order is Some && family is Some && genus is Some && species is Some
            && created_at is Some && updated_at is Some && remainder(updated_at).len() == 0 {
            Some(
                TaxonomyView {
                    id: id.unwrap().0,
                    researcher: researcher.unwrap().0,
                    kingdom: kingdom.unwrap().0,
                    phylum: phylum.unwrap().0,
                    class: class.unwrap().0,
                    order: order.unwrap().0,
                    family: family.unwrap().0,
                    genus: genus.unwrap().0,
                    species: species.unwrap().0,
                    created_at: created_at.unwrap().0,
                    updated_at: updated_at.unwrap().0,
                },
            )
        } else {
            None
        }
    }

    /// Parsing the stored form of a record gives the record back.
    pub proof fn lemma_parse_bytes(self)
        requires
            self.fits(),
        ensures
            TaxonomyView::parse(self.bytes()) == Some(self),
    {
        let r10 = optional_bytes(self.updated_at);
        let r9 = u64_bytes(self.created_at) + r10;
        let r8 = text_bytes(self.species) + r9;
        let r7 = text_bytes(self.genus) + r8;
        let r6 = text_bytes(self.family) + r7;
        let r5 = text_bytes(self.order) + r6;
        let r4 = text_bytes(self.class) + r5;
        let r3 = text_bytes(self.phylum) + r4;
        let r2 = text_bytes(self.kingdom) + r3;
        let r1 = text_bytes(self.researcher) + r2;
        lemma_parse_u64(self.id, r1);
        lemma_parse_text(self.researcher, r2);
        lemma_parse_text(self.kingdom, r3);
        lemma_parse_text(self.phylum, r4);
        lemma_parse_text(self.class, r5);
        lemma_parse_text(self.order, r6);
        lemma_parse_text(self.family, r7);
        lemma_parse_text(self.genus, r8);
        lemma_parse_text(self.species, r9);
        lemma_parse_u64(self.created_at, r10);
        lemma_parse_optional(self.updated_at, Seq::empty());
    }
}

impl Taxonomy {
    /// A copy of the record.
    pub fn copy(&self) -> (copy: Taxonomy)
        ensures
            copy@ == self@,
    {
        Taxonomy {
            id: self.id,
            researcher: copy_string(&self.researcher),
            kingdom: copy_string(&self.kingdom),
            phylum: copy_string(&self.phylum),
            class: copy_string(&self.class),
            order: copy_string(&self.order),
            family: copy_string(&self.family),
            genus: copy_string(&self.genus),
            species: copy_string(&self.species),
            created_at: self.created_at,
            updated_at: self.updated_at,
        }
    }

    /// The record that a creation stores.
    pub fn created(id: u64, researcher: &String, input: TaxonomyInput, now: u64) -> (record:
        Taxonomy)
        ensures
            record@ == TaxonomyView::created(id, researcher@, input@, now),
    {
        Taxonomy {
            id,
            researcher: copy_string(researcher),
            kingdom: input.kingdom,
            phylum: input.phylum,
            class: input.class,
            order: input.order,
            family: input.family,
            genus: input.genus,
            species: input.species,
            created_at: now,
            updated_at: None,
        }
    }

    /// The record that an update of `self` stores.
    pub fn updated(self, input: TaxonomyInput, now: u64) -> (record: Taxonomy)
        ensures
            record@ == self@.updated(input@, now),
    {
        Taxonomy {
            id: self.id,
            researcher: self.researcher,
            kingdom: input.kingdom,
            phylum: input.phylum,
            class: input.class,
            order: input.order,
            family: input.family,
            genus: input.genus,
            species: input.species,
            created_at: self.created_at,
            updated_at: Some(now),
        }
    }

    /// The stored form of the record.
    pub fn encode(&self) -> (bytes: Vec<u8>)
        ensures
            bytes@ == self@.bytes(),
            self@.fits(),
    {
        let ghost r10 = Seq::<u8>::empty();
        let ghost r9 = optional_bytes(self.updated_at) + r10;
        let ghost r8 = u64_bytes(self.created_at) + r9;
        let ghost r7 = text_bytes(self.species@) + r8;
        let ghost r6 = text_bytes(self.genus@) + r7;
        let ghost r5 = text_bytes(self.family@) + r6;
        let ghost r4 = text_bytes(self.order@) + r5;
        let ghost r3 = text_bytes(self.class@) + r4;
        let ghost r2 = text_bytes(self.phylum@) + r3;
        let ghost r1 = text_bytes(self.kingdom@) + r2;
        let ghost r0 = text_bytes(self.researcher@) + r1;
        let mut out: Vec<u8> = Vec::new();
        write_u64(&mut out, self.id, Ghost(r0));
        write_text(&mut out, &self.researcher, Ghost(r1));
        write_text(&mut out, &self.kingdom, Ghost(r2));
        write_text(&mut out, &self.phylum, Ghost(r3));
        write_text(&mut out, &self.class, Ghost(r4));
        write_text(&mut out, &self.order, Ghost(r5));
        write_text(&mut out, &self.family, Ghost(r6));
        write_text(&mut out, &self.genus, Ghost(r7));
        write_text(&mut out, &self.species, Ghost(r8));
        write_u64(&mut out, self.created_at, Ghost(r9));
        write_optional(&mut out, self.updated_at, Ghost(r10));
        out
    }

    /// Whether the record can be stored: fails with `EncodingError` where
    /// its stored form is longer than `MAX_RECORD_SIZE`.
    pub fn check_size(&self) -> (checked: Result<(), Error>)
        ensures
            match checked {
                Ok(_) => self@.bytes().len() <= MAX_RECORD_SIZE,
                Err(error) => self@.bytes().len() > MAX_RECORD_SIZE && error@
                    == (ErrorView::EncodingError {
                    size: self@.bytes().len() as usize,
                    max_size: MAX_RECORD_SIZE,
                }),
            },
    {
        let size: usize = self.encode().len();
        if size <= MAX_RECORD_SIZE {
            Ok(())
        } else {
            Err(Error::EncodingError { size, max_size: MAX_RECORD_SIZE })
        }
    }

    /// Reads a record from its stored form.
    pub fn decode(input: &[u8]) -> (record: Option<Taxonomy>)
        ensures
            match record {
                Some(taxonomy) => TaxonomyView::parse(input@) == Some(taxonomy@),
                None => TaxonomyView::parse(input@) is None,
            },
    {
        assert(input@.skip(0) =~= input@);
        let (id, next) = match read_u64(input, 0) {
            Some(read) => read,
            None => { return None; },
        };
        let (researcher, next) = match read_text(input, next) {
            Some(read) => read,
            None => { return None; },
        };
        let (kingdom, next) = match read_text(input, next) {
            Some(read) => read,
            None => { return None; },
        };
        let (phylum, next) = match read_text(input, next) {
            Some(read) => read,
            None => { return None; },
        };
        let (class, next) = match read_text(input, next) {
            Some(read) => read,
            None => { return None; },
        };
        let (order, next) = match read_text(input, next) {
            Some(read) => read,
            None => { return None; },
        };
        let (family, next) = match read_text(input, next) {
            Some(read) => read,
            None => { return None; },
        };
        let (genus, next) = match read_text(input, next) {
            Some(read) => read,
            None => { return None; },
        };
        let (species, next) = match read_text(input, next) {
            Some(read) => read,
            None => { return None; },
        };
        let (created_at, next) = match read_u64(input, next) {
            Some(read) => read,
            None => { return None; },
        };
        let (updated_at, next) = match read_optional(input, next) {
            Some(read) => read,
            None => { return None; },
        };
        if next != input.len() {
            return None;
        }
        Some(
            Taxonomy {
                id,
                researcher,
                kingdom,
                phylum,
                class,
                order,
                family,
                genus,
                species,
                created_at,
                updated_at,
            },
        )
    }
}

} // verus!
