use petstore::domain::{Pet, PetStatus, PetTag};

fn listing(status: PetStatus, tags: Vec<PetTag>) -> Pet {
    Pet { id: 1, name: "Tommy".to_owned(), status, category: "Dog".to_owned(), tags }
}

#[test]
fn listing_availability_available() {
    let pet = listing(PetStatus::Available, vec![PetTag("size".to_owned(), "small".to_owned())]);
    assert_eq!(pet.is_available(), true);
}

#[test]
fn listing_availability_unavailable() {
    let pet = listing(PetStatus::Unavailable, vec![PetTag("size".to_owned(), "small".to_owned())]);
    assert_eq!(pet.is_available(), false);
}

fn check_listing_tag(existing_tags: Vec<PetTag>) {
    let mut pet = listing(PetStatus::Available, existing_tags.clone());
    assert_eq!(pet.tags, existing_tags);
    let new_tag = PetTag("colour".to_owned(), "brown".to_owned());
    pet.tag(&new_tag);
    let expected: Vec<PetTag> = existing_tags.iter().chain(vec![new_tag].iter()).cloned().collect();
    assert_eq!(pet.tags, expected);
}

#[test]
fn listing_tag_on_empty() {
    check_listing_tag(vec![]);
}

#[test]
fn listing_tag_after_existing() {
    check_listing_tag(vec![PetTag("size".to_owned(), "small".to_owned())]);
}
