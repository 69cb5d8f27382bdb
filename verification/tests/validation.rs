use movie_catalog::validate::{
    find_index, next_id, validate_capacity, validate_date, validate_name, validate_uniqueness,
};
use movie_catalog::{Error, Genero, Pallet};

fn catalog_of(names: &[&[u8]]) -> Pallet {
    let mut p = Pallet::new();
    for n in names {
        p.adicionar_filme(n.to_vec(), 0, 2020, 1, 1, Genero::Outros).unwrap();
    }
    p
}

#[test]
fn name_must_not_be_empty() {
    assert_eq!(validate_name(Vec::new()), Err(Error::FilmeSemNome));
}

#[test]
fn name_of_101_bytes_is_too_long() {
    assert_eq!(validate_name(vec![7u8; 101]), Err(Error::NomeMuitoLongo));
    assert_eq!(validate_name(vec![7u8; 1000]), Err(Error::NomeMuitoLongo));
}

#[test]
fn name_of_1_to_100_bytes_is_kept_as_it_is() {
    assert_eq!(validate_name(vec![7u8]).unwrap().to_vec(), vec![7u8]);
    assert_eq!(validate_name(b"Matrix".to_vec()).unwrap().to_vec(), b"Matrix".to_vec());
    assert_eq!(validate_name(vec![9u8; 100]).unwrap().to_vec(), vec![9u8; 100]);
}

#[test]
fn year_bounds() {
    assert_eq!(validate_date(1999, 12, 31), Err(Error::AnoInvalido));
    assert_eq!(validate_date(2000, 1, 1), Ok(()));
    assert_eq!(validate_date(2025, 12, 31), Ok(()));
    assert_eq!(validate_date(2026, 1, 1), Err(Error::AnoInvalido));
    assert_eq!(validate_date(0, 0, 0), Err(Error::AnoInvalido));
    assert_eq!(validate_date(u32::MAX, 1, 1), Err(Error::AnoInvalido));
}

#[test]
fn month_bounds() {
    assert_eq!(validate_date(2010, 0, 1), Err(Error::MesInvalido));
    assert_eq!(validate_date(2010, 13, 1), Err(Error::MesInvalido));
    assert_eq!(validate_date(2010, 255, 0), Err(Error::MesInvalido));
    assert_eq!(validate_date(2010, 1, 1), Ok(()));
    assert_eq!(validate_date(2010, 12, 1), Ok(()));
}

#[test]
fn day_bounds() {
    assert_eq!(validate_date(2010, 1, 0), Err(Error::DiaInvalido));
    assert_eq!(validate_date(2010, 1, 32), Err(Error::DiaInvalido));
    assert_eq!(validate_date(2010, 2, 32), Err(Error::DiaInvalido));
    assert_eq!(validate_date(2010, 4, 255), Err(Error::DiaInvalido));
    assert_eq!(validate_date(2010, 1, 31), Ok(()));
}

#[test]
fn days_of_each_month() {
    let last: [u8; 12] = [31, 28, 31, 30, 31, 30, 31, 31, 30, 31, 30, 31];
    for m in 1..=12u8 {
        let d = last[(m - 1) as usize];
        assert_eq!(validate_date(2023, m, d), Ok(()));
        if d < 31 {
            assert_eq!(validate_date(2023, m, d + 1), Err(Error::DataInvalida));
        }
    }
}

#[test]
fn february_in_leap_years() {
    assert_eq!(validate_date(2024, 2, 29), Ok(()));
    assert_eq!(validate_date(2024, 2, 30), Err(Error::DataInvalida));
    assert_eq!(validate_date(2024, 2, 31), Err(Error::DataInvalida));
    assert_eq!(validate_date(2023, 2, 28), Ok(()));
    assert_eq!(validate_date(2023, 2, 29), Err(Error::DataInvalida));
    assert_eq!(validate_date(2000, 2, 29), Ok(()));
    assert_eq!(validate_date(2004, 2, 29), Ok(()));
    assert_eq!(validate_date(2001, 2, 29), Err(Error::DataInvalida));
}

#[test]
fn uniqueness_compares_whole_names() {
    let p = catalog_of(&[b"Matrix", b"Up"]);
    let taken = validate_name(b"Up".to_vec()).unwrap();
    let prefix = validate_name(b"U".to_vec()).unwrap();
    let longer = validate_name(b"Up!".to_vec()).unwrap();
    assert_eq!(validate_uniqueness(p.filmes(), &taken, None), Err(Error::NomeJaExistente));
    assert_eq!(validate_uniqueness(p.filmes(), &prefix, None), Ok(()));
    assert_eq!(validate_uniqueness(p.filmes(), &longer, None), Ok(()));
}

#[test]
fn uniqueness_skips_the_excluded_position_only() {
    let p = catalog_of(&[b"Matrix", b"Up"]);
    let name = validate_name(b"Up".to_vec()).unwrap();
    assert_eq!(validate_uniqueness(p.filmes(), &name, Some(1)), Ok(()));
    assert_eq!(validate_uniqueness(p.filmes(), &name, Some(0)), Err(Error::NomeJaExistente));
    assert_eq!(validate_uniqueness(p.filmes(), &name, Some(5)), Err(Error::NomeJaExistente));
}

#[test]
fn uniqueness_on_an_empty_catalog() {
    let p = Pallet::new();
    let name = validate_name(b"Up".to_vec()).unwrap();
    assert_eq!(validate_uniqueness(p.filmes(), &name, None), Ok(()));
}

#[test]
fn capacity_is_100() {
    let mut p = Pallet::new();
    assert_eq!(validate_capacity(p.filmes()), Ok(()));
    for i in 0..99u32 {
        p.adicionar_filme(format!("{}", i).into_bytes(), 0, 2020, 1, 1, Genero::Outros).unwrap();
    }
    assert_eq!(validate_capacity(p.filmes()), Ok(()));
    p.adicionar_filme(b"last".to_vec(), 0, 2020, 1, 1, Genero::Outros).unwrap();
    assert_eq!(validate_capacity(p.filmes()), Err(Error::FilmesArmazenamentoCheio));
}

#[test]
fn next_id_follows_the_last_record() {
    let mut p = Pallet::new();
    assert_eq!(next_id(p.filmes()), 0);
    p = catalog_of(&[b"a", b"b", b"c"]);
    assert_eq!(next_id(p.filmes()), 3);
    p.filmes[2].id = 40;
    assert_eq!(next_id(p.filmes()), 41);
    p.filmes[0].id = 90;
    assert_eq!(next_id(p.filmes()), 41);
    p.filmes[2].id = u32::MAX - 1;
    assert_eq!(next_id(p.filmes()), u32::MAX);
    p.filmes[2].id = u32::MAX;
    assert_eq!(next_id(p.filmes()), u32::MAX);
}

#[test]
fn find_index_gives_the_last_position_with_the_id() {
    let mut p = catalog_of(&[b"a", b"b", b"c"]);
    assert_eq!(find_index(p.filmes(), 0), Some(0));
    assert_eq!(find_index(p.filmes(), 2), Some(2));
    assert_eq!(find_index(p.filmes(), 3), None);
    p.filmes[1].id = 0;
    assert_eq!(find_index(p.filmes(), 0), Some(1));
    assert_eq!(find_index(p.filmes(), 1), None);
    assert_eq!(find_index(Pallet::new().filmes(), 0), None);
}
