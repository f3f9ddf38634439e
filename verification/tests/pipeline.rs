use ces_microdata::digest::check_digest;
use ces_microdata::digest::digest_hex;
use ces_microdata::iso_8559_1_to_utf8;
use ces_microdata::select_entry;
use ces_microdata::Ces;
use ces_microdata::FetchError;
use ces_microdata::IoError;
use ces_microdata::Microdata;
use ces_microdata::PipelineAction;
use ces_microdata::PipelineError;
use ces_microdata::PipelineEvent;
use ces_microdata::PipelineState;
use ces_microdata::SelectionError;
use ces_microdata::Stage;
use ces_microdata::VerificationError;
use std::io::Cursor;
use std::io::Write;
use zip::write::SimpleFileOptions;
use zip::ZipWriter;

fn archive_with(name: &str, content: &[u8]) -> Vec<u8> {
    let mut writer = ZipWriter::new(Cursor::new(Vec::new()));
    writer.start_file(name, SimpleFileOptions::default()).unwrap();
    writer.write_all(content).unwrap();
    writer.finish().unwrap().into_inner()
}

#[test]
fn the_pipeline_begins_by_asking_whether_the_extract_exists() {
    let ces = Ces::new(2011).unwrap();
    assert_eq!(
        ces.step(PipelineState::NotChecked, PipelineEvent::Start),
        Some((
            PipelineState::Checking,
            PipelineAction::CheckExists { path: String::from("input/cursos.2011.csv") }
        ))
    );
}

#[test]
fn a_stored_extract_ends_the_pipeline_without_a_fetch() {
    let ces = Ces::new(2011).unwrap();
    assert_eq!(
        ces.step(PipelineState::Checking, PipelineEvent::Existence(Ok(true))),
        Some((PipelineState::Done, PipelineAction::Stop))
    );
}

#[test]
fn a_missing_extract_is_fetched_from_the_address_of_the_year() {
    let ces = Ces::new(2011).unwrap();
    assert_eq!(
        ces.step(PipelineState::Checking, PipelineEvent::Existence(Ok(false))),
        Some((
            PipelineState::Fetching,
            PipelineAction::Fetch {
                url: String::from(
                    "https://download.inep.gov.br/microdados/microdados_censo_da_educacao_superior_2011.zip"
                )
            }
        ))
    );
}

#[test]
fn a_failed_existence_check_fails_the_pipeline() {
    let ces = Ces::new(2011).unwrap();
    assert_eq!(
        ces.step(
            PipelineState::Checking,
            PipelineEvent::Existence(Err(String::from("permission denied")))
        ),
        Some((
            PipelineState::Failed {
                stage: Stage::Checking,
                cause: PipelineError::Io(IoError { cause: String::from("permission denied") })
            },
            PipelineAction::Stop
        ))
    );
}

#[test]
fn fetched_bytes_are_handed_to_extraction_unchanged() {
    let ces = Ces::new(2011).unwrap();
    assert_eq!(
        ces.step(PipelineState::Fetching, PipelineEvent::Fetched(Ok(vec![0x50, 0x4b, 0x03, 0x04]))),
        Some((
            PipelineState::Extracting,
            PipelineAction::Extract { archive: vec![0x50, 0x4b, 0x03, 0x04] }
        ))
    );
}

#[test]
fn a_failed_fetch_carries_year_and_cause() {
    let ces = Ces::new(2014).unwrap();
    assert_eq!(
        ces.step(
            PipelineState::Fetching,
            PipelineEvent::Fetched(Err(String::from("connection reset")))
        ),
        Some((
            PipelineState::Failed {
                stage: Stage::Fetching,
                cause: PipelineError::Fetch(FetchError {
                    year: 2014,
                    cause: String::from("connection reset")
                })
            },
            PipelineAction::Stop
        ))
    );
}

#[test]
fn extracted_text_is_written_to_the_path_of_the_year() {
    let ces = Ces::new(2011).unwrap();
    assert_eq!(
        ces.step(
            PipelineState::Extracting,
            PipelineEvent::Extracted(Ok(String::from("CO_CURSO;NO_CURSO\n")))
        ),
        Some((
            PipelineState::Persisting,
            PipelineAction::Write {
                path: String::from("input/cursos.2011.csv"),
                text: String::from("CO_CURSO;NO_CURSO\n")
            }
        ))
    );
}

#[test]
fn a_failed_selection_fails_in_extraction() {
    let ces = Ces::new(2011).unwrap();
    for cause in [SelectionError::CorruptArchive, SelectionError::EntryNotFound] {
        assert_eq!(
            ces.step(
                PipelineState::Extracting,
                PipelineEvent::Extracted(Err(PipelineError::Selection(cause)))
            ),
            Some((
                PipelineState::Failed {
                    stage: Stage::Extracting,
                    cause: PipelineError::Selection(cause)
                },
                PipelineAction::Stop
            ))
        );
    }
}

#[test]
fn a_failed_verification_fails_in_verification_and_writes_nothing() {
    let ces = Ces::new(2011).unwrap();
    assert_eq!(
        ces.step(
            PipelineState::Extracting,
            PipelineEvent::Extracted(Err(PipelineError::Verification(
                VerificationError::NoReferenceDigest
            )))
        ),
        Some((
            PipelineState::Failed {
                stage: Stage::Verifying,
                cause: PipelineError::Verification(VerificationError::NoReferenceDigest)
            },
            PipelineAction::Stop
        ))
    );
}

#[test]
fn a_successful_write_ends_the_pipeline() {
    let ces = Ces::new(2011).unwrap();
    assert_eq!(
        ces.step(PipelineState::Persisting, PipelineEvent::Written(Ok(()))),
        Some((PipelineState::Done, PipelineAction::Stop))
    );
}

#[test]
fn a_failed_write_fails_the_pipeline() {
    let ces = Ces::new(2011).unwrap();
    assert_eq!(
        ces.step(PipelineState::Persisting, PipelineEvent::Written(Err(String::from("disk full")))),
        Some((
            PipelineState::Failed {
                stage: Stage::Persisting,
                cause: PipelineError::Io(IoError { cause: String::from("disk full") })
            },
            PipelineAction::Stop
        ))
    );
}

#[test]
fn an_event_that_the_state_does_not_wait_for_is_refused() {
    let ces = Ces::new(2011).unwrap();
    assert_eq!(ces.step(PipelineState::NotChecked, PipelineEvent::Existence(Ok(true))), None);
    assert_eq!(ces.step(PipelineState::Checking, PipelineEvent::Start), None);
    assert_eq!(ces.step(PipelineState::Checking, PipelineEvent::Written(Ok(()))), None);
    assert_eq!(ces.step(PipelineState::Fetching, PipelineEvent::Existence(Ok(false))), None);
    assert_eq!(ces.step(PipelineState::Fetching, PipelineEvent::Extracted(Ok(String::new()))), None);
    assert_eq!(ces.step(PipelineState::Extracting, PipelineEvent::Fetched(Ok(Vec::new()))), None);
    assert_eq!(ces.step(PipelineState::Persisting, PipelineEvent::Extracted(Ok(String::new()))), None);
}

#[test]
fn a_finished_pipeline_takes_no_more_events() {
    let ces = Ces::new(2011).unwrap();
    assert_eq!(ces.step(PipelineState::Done, PipelineEvent::Start), None);
    assert_eq!(ces.step(PipelineState::Done, PipelineEvent::Written(Ok(()))), None);
    let failed = PipelineState::Failed {
        stage: Stage::Fetching,
        cause: PipelineError::Fetch(FetchError { year: 2011, cause: String::from("timeout") }),
    };
    assert_eq!(ces.step(failed, PipelineEvent::Start), None);
}

#[test]
fn outcome_of_each_state() {
    assert_eq!(PipelineState::Done.outcome(), Some(Ok(())));
    assert_eq!(
        PipelineState::Failed {
            stage: Stage::Extracting,
            cause: PipelineError::Selection(SelectionError::EntryNotFound)
        }
        .outcome(),
        Some(Err(PipelineError::Selection(SelectionError::EntryNotFound)))
    );
    assert_eq!(PipelineState::NotChecked.outcome(), None);
    assert_eq!(PipelineState::Checking.outcome(), None);
    assert_eq!(PipelineState::Fetching.outcome(), None);
    assert_eq!(PipelineState::Extracting.outcome(), None);
    assert_eq!(PipelineState::Persisting.outcome(), None);
}

#[test]
fn a_second_run_after_a_successful_one_fetches_and_writes_nothing() {
    let ces = Ces::new(2012).unwrap();
    let mut stored = false;
    let mut fetches = 0;
    let mut writes = 0;
    for _ in 0..2 {
        let (mut state, mut action) =
            ces.step(PipelineState::NotChecked, PipelineEvent::Start).unwrap();
        loop {
            let event = match action {
                PipelineAction::CheckExists { .. } => PipelineEvent::Existence(Ok(stored)),
                PipelineAction::Fetch { .. } => {
                    fetches += 1;
                    PipelineEvent::Fetched(Ok(vec![1, 2, 3]))
                }
                PipelineAction::Extract { .. } => PipelineEvent::Extracted(Ok(String::from("texto"))),
                PipelineAction::Write { .. } => {
                    writes += 1;
                    stored = true;
                    PipelineEvent::Written(Ok(()))
                }
                PipelineAction::Stop => break,
            };
            let next = ces.step(state, event).unwrap();
            state = next.0;
            action = next.1;
        }
        assert_eq!(state, PipelineState::Done);
    }
    assert_eq!(fetches, 1);
    assert_eq!(writes, 1);
}

#[test]
fn the_year_2011_from_address_to_stored_text() {
    let ces = Ces::new(2011).unwrap();
    let content: Vec<u8> = b"CO_CURSO;NO_CURSO\n1;Ci\xeancias Cont\xe1beis\n2;Educa\xe7\xe3o F\xedsica\n".to_vec();
    let zip = archive_with("MICRODADOS_CADASTRO_CURSOS_2011.csv", &content);

    let (state, action) = ces.step(PipelineState::NotChecked, PipelineEvent::Start).unwrap();
    assert_eq!(action, PipelineAction::CheckExists { path: String::from("input/cursos.2011.csv") });
    let (state, action) = ces.step(state, PipelineEvent::Existence(Ok(false))).unwrap();
    assert_eq!(
        action,
        PipelineAction::Fetch {
            url: String::from(
                "https://download.inep.gov.br/microdados/microdados_censo_da_educacao_superior_2011.zip"
            )
        }
    );
    let (state, action) = ces.step(state, PipelineEvent::Fetched(Ok(zip.clone()))).unwrap();
    assert_eq!(action, PipelineAction::Extract { archive: zip.clone() });

    let entry = select_entry(zip, "MICRODADOS_CADASTRO", Microdata::Cursos.name()).unwrap();
    assert_eq!(entry, content);
    let pinned = digest_hex(&content);
    assert_eq!(check_digest(digest_hex(&entry), Some(pinned.as_str())), Ok(()));
    let text = iso_8559_1_to_utf8(entry);
    assert_eq!(text, "CO_CURSO;NO_CURSO\n1;Ci\u{ea}ncias Cont\u{e1}beis\n2;Educa\u{e7}\u{e3}o F\u{ed}sica\n");
    assert_eq!(
        text.chars().map(|c| c as u32).collect::<Vec<u32>>(),
        content.iter().map(|b| *b as u32).collect::<Vec<u32>>()
    );

    let (state, action) = ces.step(state, PipelineEvent::Extracted(Ok(text.clone()))).unwrap();
    assert_eq!(
        action,
        PipelineAction::Write { path: String::from("input/cursos.2011.csv"), text }
    );
    let (state, action) = ces.step(state, PipelineEvent::Written(Ok(()))).unwrap();
    assert_eq!(action, PipelineAction::Stop);
    assert_eq!(state, PipelineState::Done);
    assert_eq!(state.outcome(), Some(Ok(())));
}

#[test]
fn a_mismatching_archive_never_reaches_a_write() {
    let ces = Ces::new(2011).unwrap();
    let zip = archive_with("MICRODADOS_CADASTRO_CURSOS_2011.csv", b"abc");
    let (mut state, mut action) = ces.step(PipelineState::NotChecked, PipelineEvent::Start).unwrap();
    let mut asked = Vec::new();
    loop {
        let event = match action {
            PipelineAction::CheckExists { .. } => {
                asked.push("check");
                PipelineEvent::Existence(Ok(false))
            }
            PipelineAction::Fetch { .. } => {
                asked.push("fetch");
                PipelineEvent::Fetched(Ok(zip.clone()))
            }
            PipelineAction::Extract { archive } => {
                asked.push("extract");
                PipelineEvent::Extracted(ces.extract_cursos_microdata(archive))
            }
            PipelineAction::Write { .. } => {
                asked.push("write");
                PipelineEvent::Written(Ok(()))
            }
            PipelineAction::Stop => break,
        };
        let next = ces.step(state, event).unwrap();
        state = next.0;
        action = next.1;
    }
    assert_eq!(asked, vec!["check", "fetch", "extract"]);
    assert_eq!(
        state,
        PipelineState::Failed {
            stage: Stage::Verifying,
            cause: PipelineError::Verification(VerificationError::DigestMismatch {
                expected: String::from("f626dd6d17e8f31f78ddf90f680ace48"),
                actual: String::from("900150983cd24fb0d6963f7d28e17f72"),
            })
        }
    );
}
