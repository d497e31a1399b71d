//! A form builder's core: questions of ten kinds, each a configuration and an
//! answer of one kind kept in step; forms of questions; the editor state; and
//! the data models of a remote forms service.
pub mod editor;
pub mod form;
pub mod gform_models;
pub mod question;
