use solana_arb::dex::{Dex, Venue};

#[test]
fn exclude_removes_only_the_other_venues() {
    let all = Dex::all();
    let raydium = Dex::single(Venue::Raydium);
    let rest = all.exclude(&raydium);
    assert!(!rest.contains(Venue::Raydium));
    assert!(rest.contains(Venue::MeteoraDlmm));
    assert!(rest.contains(Venue::Whirlpool));
    assert!(rest.contains(Venue::Phoenix));
    assert!(!rest.contains(Venue::Meteora));
}

#[test]
fn exclude_of_itself_is_empty() {
    let all = Dex::all();
    assert_eq!(all.exclude(&all), Dex::empty());
}

#[test]
fn from_vec_reads_known_names_and_ignores_others() {
    let d = Dex::from_vec(vec!["Raydium", "Meteora DLMM", "Orca", "Phoenix", "raydium"]);
    assert!(d.contains(Venue::Raydium));
    assert!(d.contains(Venue::MeteoraDlmm));
    assert!(d.contains(Venue::Phoenix));
    assert!(!d.contains(Venue::Meteora));
    assert!(!d.contains(Venue::Whirlpool));
}

#[test]
fn from_vec_of_nothing_is_empty() {
    assert_eq!(Dex::from_vec(vec![]), Dex::empty());
    assert_eq!(Dex::from_vec(vec!["", "Unknown"]), Dex::empty());
}

#[test]
fn to_string_lists_in_fixed_order() {
    assert_eq!(Dex::all().to_string(), "Raydium,Meteora DLMM,Whirlpool,Phoenix");
    let d = Dex::from_vec(vec!["Phoenix", "Meteora", "Whirlpool"]);
    assert_eq!(d.to_string(), "Meteora,Whirlpool,Phoenix");
    assert_eq!(Dex::single(Venue::Meteora).to_string(), "Meteora");
}

#[test]
fn to_string_of_empty_is_empty() {
    assert_eq!(Dex::empty().to_string(), "");
}

#[test]
fn union_joins_both_filters() {
    let d = Dex::single(Venue::Raydium).union(&Dex::single(Venue::Meteora));
    assert_eq!(d.to_string(), "Raydium,Meteora");
}
