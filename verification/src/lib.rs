pub mod audio;
pub mod calendar;
pub mod error;
pub mod gallery;
pub mod jobs;
pub mod jobs_lifecycle;
pub mod llm;
pub mod output;
pub mod text;
pub mod transcription;
pub mod cleanup;
pub mod elevenlabs_asr;
pub mod local_asr;
pub mod config;
pub mod health;
pub mod workflow;
pub mod gallery_seed;
pub mod cli;
pub mod migrations;
pub mod jobs_worker;
pub mod seed_plan;
