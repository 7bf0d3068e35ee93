//! Renders a tracker epic and its stories as a dependency graph and as a
//! self-contained HTML report around that graph.

pub mod decimal;
pub mod diagram_html_emitter;
pub mod diagram_text_emitter;
pub mod epic_info;
pub mod references;
