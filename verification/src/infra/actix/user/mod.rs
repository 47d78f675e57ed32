pub mod presenters;
