use grid_builder::adapter::{AdapterError, HostAdapter};
use grid_builder::grid::{Builder, Cell};

/// A host stub: records every capability call and fails exactly where
/// it is told to.
struct StubHost {
    notifications: Vec<String>,
    alerts: Vec<String>,
    insertions: Vec<(String, String)>,
    missing_id: Option<String>,
    document_available: bool,
}

impl StubHost {
    fn ready() -> StubHost {
        StubHost {
            notifications: Vec::new(),
            alerts: Vec::new(),
            insertions: Vec::new(),
            missing_id: None,
            document_available: true,
        }
    }
}

impl HostAdapter for StubHost {
    fn notify(&mut self, message: &str) {
        self.notifications.push(message.to_string());
    }

    fn alert_user(&mut self, message: &str) {
        self.alerts.push(message.to_string());
    }

    fn insert_rendered_output(
        &mut self,
        container_id: &str,
        rendered_text: &str,
    ) -> Result<(), AdapterError> {
        if !self.document_available {
            return Err(AdapterError::DocumentUnavailable);
        }
        if self.missing_id.as_deref() == Some(container_id) {
            return Err(AdapterError::ContainerNotFound);
        }
        self.insertions
            .push((container_id.to_string(), rendered_text.to_string()));
        Ok(())
    }
}

#[test]
fn dimensions_are_fixed() {
    let g = Builder::new();
    assert_eq!(g.width(), 64);
    assert_eq!(g.height(), 64);
}

#[test]
fn cells_len_is_width_times_height() {
    let g = Builder::new();
    assert_eq!(g.cells().len(), (g.width() as usize) * (g.height() as usize));
    assert_eq!(g.cells().len(), 4096);
}

#[test]
fn initialization_examples() {
    let g = Builder::new();
    let cells = g.cells();
    assert_eq!(cells[0], Cell::Alive);
    assert_eq!(cells[1], Cell::Dead);
    assert_eq!(cells[7], Cell::Alive);
    assert_eq!(cells[9], Cell::Dead);
}

#[test]
fn initialization_rule_everywhere() {
    let g = Builder::new();
    let cells = g.cells();
    for i in 0..cells.len() {
        let expected = if i % 2 == 0 || i % 7 == 0 {
            Cell::Alive
        } else {
            Cell::Dead
        };
        assert_eq!(cells[i], expected);
    }
}

#[test]
fn render_row_partition() {
    let g = Builder::new();
    let s = g.render();
    let newline_count = s.chars().filter(|c| *c == '\n').count();
    assert_eq!(newline_count, 64);
    let lines: Vec<&str> = s.split('\n').collect();
    assert_eq!(lines.len(), 65);
    assert_eq!(lines[64], "");
    for line in &lines[..64] {
        assert_eq!(line.chars().count(), 64);
    }
}

#[test]
fn render_is_deterministic() {
    let g = Builder::new();
    let first = g.render();
    let second = g.render();
    assert_eq!(first, second);
}

#[test]
fn glyph_mapping_is_consistent() {
    let g = Builder::new();
    let s = g.render();
    let cells = g.cells();
    let mut idx: usize = 0;
    for line in s.split('\n').take(64) {
        for ch in line.chars() {
            match cells[idx] {
                Cell::Dead => assert_eq!(ch, '\u{25fb}'),
                Cell::Alive => assert_eq!(ch, '\u{25fc}'),
            }
            idx += 1;
        }
    }
    assert_eq!(idx, 4096);
}

#[test]
fn first_rendered_glyphs_match_examples() {
    let g = Builder::new();
    let s = g.render();
    let mut chars = s.chars();
    // index 0 starts alive, index 1 dead, index 2 alive again
    assert_eq!(chars.next(), Some('\u{25fc}'));
    assert_eq!(chars.next(), Some('\u{25fb}'));
    assert_eq!(chars.next(), Some('\u{25fc}'));
}

#[test]
fn set_root_changes_only_the_advisory_id() {
    let mut g = Builder::new();
    let mut host = StubHost::ready();
    let cells_before: Vec<Cell> = g.cells().to_vec();
    let rendered_before = g.render();
    g.set_root_by_id(&mut host, "x");
    assert_eq!(g.cells().to_vec(), cells_before);
    assert_eq!(g.render(), rendered_before);
    assert_eq!(g.width(), 64);
    assert_eq!(g.height(), 64);
}

#[test]
fn set_root_emits_one_diagnostic() {
    let mut g = Builder::new();
    let mut host = StubHost::ready();
    g.set_root_by_id(&mut host, "sidebar");
    assert_eq!(host.notifications, vec!["Registering app at id: sidebar!"]);
}

#[test]
fn alert_greets_through_the_host() {
    let g = Builder::new();
    let mut host = StubHost::ready();
    g.alert(&mut host, "World");
    assert_eq!(host.alerts, vec!["Hello, World!"]);
}

#[test]
fn create_div_targets_the_default_container() {
    let g = Builder::new();
    let mut host = StubHost::ready();
    let outcome = g.create_div(&mut host, "payload");
    assert!(outcome.is_ok());
    assert_eq!(host.insertions.len(), 1);
    assert_eq!(host.insertions[0].0, "root");
    assert_eq!(host.insertions[0].1, "payload");
}

#[test]
fn create_div_targets_the_reassigned_container() {
    let mut g = Builder::new();
    let mut host = StubHost::ready();
    g.set_root_by_id(&mut host, "panel");
    let rendered = g.render();
    let outcome = g.create_div(&mut host, rendered.as_str());
    assert!(outcome.is_ok());
    assert_eq!(host.insertions.len(), 1);
    assert_eq!(host.insertions[0].0, "panel");
    assert_eq!(host.insertions[0].1, rendered);
}

#[test]
fn missing_container_failure_is_propagated() {
    let mut g = Builder::new();
    let mut host = StubHost::ready();
    host.missing_id = Some("missing".to_string());
    g.set_root_by_id(&mut host, "missing");
    let cells_before: Vec<Cell> = g.cells().to_vec();
    let rendered_before = g.render();
    let outcome = g.create_div(&mut host, "payload");
    assert_eq!(outcome, Err(AdapterError::ContainerNotFound));
    assert!(host.insertions.is_empty());
    assert_eq!(g.cells().to_vec(), cells_before);
    assert_eq!(g.render(), rendered_before);
}

#[test]
fn unavailable_document_failure_is_propagated() {
    let g = Builder::new();
    let mut host = StubHost::ready();
    host.document_available = false;
    let outcome = g.create_div(&mut host, "payload");
    assert_eq!(outcome, Err(AdapterError::DocumentUnavailable));
    assert!(host.insertions.is_empty());
}
