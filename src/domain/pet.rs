use vstd::prelude::*;

verus! {

/// Lifecycle state of a pet in the store.
#[derive(Debug, PartialEq, Eq, Structural, Clone, Copy)]
pub enum PetStatus {
    Available,
    Pending,
    Sold,
}

/// Why a sale was refused.
#[derive(Debug, PartialEq, Eq, Structural, Clone, Copy)]
pub enum PetStatusError {
    /// Another customer is completing the purchase of this pet.
    SaleInProgress,
    /// The pet has already been sold.
    NotAvailable,
}

impl PetStatusError {
    /// The human-readable text of the error.
    pub open spec fn spec_message(&self) -> Seq<char> {
        match self {
            PetStatusError::SaleInProgress => "Pet sale is being completed by another customer"@,
            PetStatusError::NotAvailable => "Pet is not available for adoption"@,
        }
    }

    /// Renders the error as text for display at the application boundary.
    pub fn message(&self) -> (r: String)
        ensures
            r@ == self.spec_message(),
    {
        match self {
            PetStatusError::SaleInProgress => "Pet sale is being completed by another customer".to_owned(),
            PetStatusError::NotAvailable => "Pet is not available for adoption".to_owned(),
        }
    }
}

/// Result of trying to sell a pet in the given state.
pub open spec fn sale_result(status: PetStatus) -> Result<(), PetStatusError> {
    match status {
        PetStatus::Available => Ok(()),
        PetStatus::Pending => Err(PetStatusError::SaleInProgress),
        PetStatus::Sold => Err(PetStatusError::NotAvailable),
    }
}

/// State a pet is in after a sale attempt from the given state: only an
/// available pet changes hands.
pub open spec fn status_after_sale(status: PetStatus) -> PetStatus {
    match status {
        PetStatus::Available => PetStatus::Sold,
        _ => status,
    }
}

/// A key/value annotation attached to a pet.
#[derive(Debug, PartialEq, Eq, Clone)]
pub struct PetTag(pub String, pub String);

/// A pet offered by the store. The identifier is fixed at construction, the
/// status changes only through [`Pet::sell`], and tags are only ever appended.
#[derive(Debug, PartialEq, Eq)]
pub struct Pet {
    id: i64,
    pub name: String,
    status: PetStatus,
    pub category: String,
    tags: Vec<PetTag>,
}

/// The abstract value of a pet.
pub struct PetView {
    pub id: i64,
    pub name: Seq<char>,
    pub status: PetStatus,
    pub category: Seq<char>,
    pub tags: Seq<PetTag>,
}

impl View for Pet {
    type V = PetView;

    closed spec fn view(&self) -> PetView {
        PetView {
            id: self.id,
            name: self.name@,
            status: self.status,
            category: self.category@,
            tags: self.tags@,
        }
    }
}

impl Pet {
    /// Whether the pet can currently be adopted.
    pub open spec fn spec_is_available(&self) -> bool {
        self@.status == PetStatus::Available
    }

    /// Builds a pet from all of its fields.
    pub fn new(id: i64, name: String, status: PetStatus, category: String, tags: Vec<PetTag>) -> (r:
        Pet)
        ensures
            r@ == (PetView { id, name: name@, status, category: category@, tags: tags@ }),
    {
        Pet { id, name, status, category, tags }
    }

    /// The pet's identifier.
    pub fn id(&self) -> (r: i64)
        ensures
            r == self@.id,
    {
        self.id
    }

    /// The pet's current status.
    pub fn status(&self) -> (r: PetStatus)
        ensures
            r == self@.status,
    {
        self.status
    }

    /// The pet's tags, oldest first.
    pub fn tags(&self) -> (r: &[PetTag])
        ensures
            r@ == self@.tags,
    {
        self.tags.as_slice()
    }

    /// Returns true exactly when the pet is `Available`.
    pub fn is_available(&self) -> (r: bool)
        ensures
            r == self.spec_is_available(),
    {
        self.status == PetStatus::Available
    }

    /// Appends a tag after the existing ones; nothing else changes.
    pub fn tag(&mut self, tag: PetTag)
        ensures
            final(self)@ == (PetView { tags: old(self)@.tags.push(tag), ..old(self)@ }),
    {
        self.tags.push(tag);
    }

    /// Whether a sale may start; the same rule as availability.
    pub fn can_sell(&self) -> (r: bool)
        ensures
            r == self.spec_is_available(),
    {
        self.status == PetStatus::Available
    }

    /// Sells the pet: an available pet becomes sold, a pending or sold pet is
    /// refused with the matching error and left as it was.
    pub fn sell(&mut self) -> (r: Result<(), PetStatusError>)
        ensures
            r == sale_result(old(self)@.status),
            r is Ok <==> old(self)@.status == PetStatus::Available,
            final(self)@ == (PetView { status: status_after_sale(old(self)@.status), ..old(self)@ }),
    {
        match self.status {
            PetStatus::Available => {
                self.status = PetStatus::Sold;
                Ok(())
            },
            PetStatus::Pending => Err(PetStatusError::SaleInProgress),
            PetStatus::Sold => Err(PetStatusError::NotAvailable),
        }
    }
}

/// Tagging only appends: the tag sequence that [`Pet::tag`] leaves behind is
/// one longer, keeps every earlier tag at its position, and ends with the new
/// tag.
pub proof fn lemma_tag_append_only(tags: Seq<PetTag>, tag: PetTag)
    ensures
        tags.push(tag).len() == tags.len() + 1,
        forall|i: int| 0 <= i < tags.len() ==> #[trigger] tags.push(tag)[i] == tags[i],
        tags.push(tag).last() == tag,
        tags.push(tag).subrange(0, tags.len() as int) == tags,
{
    assert(tags.push(tag).subrange(0, tags.len() as int) =~= tags);
}

/// A filter over pets: each field that is set must equal the pet's field, and
/// an unset field accepts any value.
#[derive(Debug, Clone)]
pub struct PetQuery {
    pub id: Option<i64>,
    pub name: Option<String>,
    pub status: Option<PetStatus>,
    pub category: Option<String>,
}

impl PetQuery {
    /// Whether `pet` satisfies every field set in this query.
    pub open spec fn spec_matches(&self, pet: PetView) -> bool {
        &&& (self.id matches Some(id) ==> id == pet.id)
        &&& (self.name matches Some(name) ==> name@ == pet.name)
        &&& (self.status matches Some(status) ==> status == pet.status)
        &&& (self.category matches Some(category) ==> category@ == pet.category)
    }

    /// Tests `pet` against the query.
    pub fn matches(&self, pet: &Pet) -> (r: bool)
        ensures
            r == self.spec_matches(pet@),
    {
        let id_ok = match self.id {
            Some(id) => id == pet.id,
            None => true,
        };
        let name_ok = match &self.name {
            Some(name) => *name == pet.name,
            None => true,
        };
        let status_ok = match self.status {
            Some(status) => status == pet.status,
            None => true,
        };
        let category_ok = match &self.category {
            Some(category) => *category == pet.category,
            None => true,
        };
        id_ok && name_ok && status_ok && category_ok
    }
}

/// Storage for pets, supplied by the application around this library.
pub trait PetRepository {
    /// What a failed save reports.
    type Error;

    /// Stores `pet` and hands back the stored value.
    fn save(pet: Pet) -> Result<Pet, Self::Error>;

    /// Looks a pet up by its identifier.
    fn get_by_id(pet_id: i64) -> Option<Pet>;

    /// All stored pets that satisfy `query`.
    fn get_by_query(query: PetQuery) -> Vec<Pet>;
}

} // verus!
