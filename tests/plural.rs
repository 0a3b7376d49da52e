use kube_derive::plural::to_plural;

#[test]
fn plural_of_sibilant_endings() {
    assert_eq!(to_plural("fox"), "foxes");
    assert_eq!(to_plural("bus"), "buses");
    assert_eq!(to_plural("quiz"), "quizes");
    assert_eq!(to_plural("match"), "matches");
    assert_eq!(to_plural("mesh"), "meshes");
}

#[test]
fn plural_of_consonant_y() {
    assert_eq!(to_plural("puppy"), "puppies");
    assert_eq!(to_plural("policy"), "policies");
}

#[test]
fn plural_of_vowel_y_and_others() {
    assert_eq!(to_plural("day"), "days");
    assert_eq!(to_plural("key"), "keys");
    assert_eq!(to_plural("foo"), "foos");
    assert_eq!(to_plural("pod"), "pods");
}

#[test]
fn plural_is_total_on_short_words() {
    assert_eq!(to_plural(""), "s");
    assert_eq!(to_plural("y"), "ys");
    assert_eq!(to_plural("h"), "hs");
    assert_eq!(to_plural("octopus"), "octopuses");
}
