use ces_microdata::ces::END_YEAR;
use ces_microdata::ces::MICRODATA_PREFIX;
use ces_microdata::ces::MIN_YEAR;
use ces_microdata::Ces;
use ces_microdata::ConstructionError;
use ces_microdata::Microdata;

#[test]
#[should_panic]
fn create_ces_with_year_before_2009() {
    let _ces = Ces::new(2008).unwrap();
}

#[test]
fn create_ces_with_year_after_2009() {
    for year in 2009..2022 {
        let _ces = Ces::new(year).unwrap();
    }
}

#[test]
fn url() {
    let ces = Ces::new(2011).unwrap();
    assert_eq!(
        ces.url(),
        "https://download.inep.gov.br/microdados/microdados_censo_da_educacao_superior_2011.zip",
    )
}

#[test]
fn years_before_the_first_are_refused() {
    assert_eq!(Ces::new(2008).unwrap_err(), ConstructionError { year: 2008 });
    assert_eq!(Ces::new(0).unwrap_err(), ConstructionError { year: 0 });
    assert_eq!(Ces::new(1999).unwrap_err(), ConstructionError { year: 1999 });
    for year in 0..2009u16 {
        assert!(Ces::new(year).is_err());
    }
}

#[test]
fn years_from_the_first_on_are_accepted() {
    assert_eq!(Ces::new(2009).unwrap().year(), 2009);
    assert_eq!(Ces::new(2021).unwrap().year(), 2021);
    assert_eq!(Ces::new(2022).unwrap().year(), 2022);
    assert_eq!(Ces::new(u16::MAX).unwrap().year(), 65535);
    for year in 2009..=u16::MAX {
        assert_eq!(Ces::new(year).unwrap().year(), year);
    }
}

#[test]
fn limits_of_the_published_years() {
    assert_eq!(MIN_YEAR, 2009);
    assert_eq!(END_YEAR, 2022);
    assert_eq!(MICRODATA_PREFIX, "MICRODADOS_CADASTRO");
}

#[test]
fn all_lists_every_published_year_in_order() {
    let all = Ces::all();
    assert_eq!(all.len(), 13);
    let years: Vec<u16> = all.iter().map(|ces| ces.year()).collect();
    assert_eq!(
        years,
        vec![2009, 2010, 2011, 2012, 2013, 2014, 2015, 2016, 2017, 2018, 2019, 2020, 2021]
    );
}

#[test]
fn url_of_other_years() {
    assert_eq!(
        Ces::new(2009).unwrap().url(),
        "https://download.inep.gov.br/microdados/microdados_censo_da_educacao_superior_2009.zip"
    );
    assert_eq!(
        Ces::new(65535).unwrap().url(),
        "https://download.inep.gov.br/microdados/microdados_censo_da_educacao_superior_65535.zip"
    );
    assert_eq!(
        Ces::new(10000).unwrap().url(),
        "https://download.inep.gov.br/microdados/microdados_censo_da_educacao_superior_10000.zip"
    );
}

#[test]
fn path_is_made_of_table_and_year() {
    assert_eq!(Ces::new(2011).unwrap().path(Microdata::Cursos), "input/cursos.2011.csv");
    assert_eq!(Ces::new(2009).unwrap().path(Microdata::Cursos), "input/cursos.2009.csv");
    assert_eq!(Ces::new(2021).unwrap().path(Microdata::Cursos), "input/cursos.2021.csv");
}

#[test]
fn path_is_the_same_every_time_and_differs_between_years() {
    let a = Ces::new(2015).unwrap();
    assert_eq!(a.path(Microdata::Cursos), a.path(Microdata::Cursos));
    let paths: Vec<String> = Ces::all().iter().map(|ces| ces.path(Microdata::Cursos)).collect();
    for i in 0..paths.len() {
        for j in 0..paths.len() {
            assert_eq!(paths[i] == paths[j], i == j);
        }
    }
}

#[test]
fn a_handle_is_a_plain_copyable_value() {
    let a = Ces::new(2013).unwrap();
    let b = a;
    assert_eq!(a.year(), b.year());
    assert_eq!(format!("{:?}", a), "Ces { year: 2013 }");
}
