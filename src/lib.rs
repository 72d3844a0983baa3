//! Core of a flashcard system: spaced-repetition scheduling, the pipeline
//! that turns captures and text selections into stored cards, and the loop
//! that turns review outcomes into new timetables.
pub mod capture;
pub mod card;
pub mod error;
pub mod ingest;
pub mod llm;
pub mod ocr;
pub mod review;
pub mod scan;
pub mod schedule;
