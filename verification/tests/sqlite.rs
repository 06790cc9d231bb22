use insertable::sqlite::SqliteAggregateFunction;

/// A sample aggregate: the longest of the texts fed to it.
#[derive(Default)]
struct Longest {
    best: Option<String>,
}

impl SqliteAggregateFunction<String> for Longest {
    type Output = Option<String>;

    fn step(&mut self, args: String) {
        let longer = match &self.best {
            Some(b) => args.len() > b.len(),
            None => true,
        };
        if longer {
            self.best = Some(args);
        }
    }

    fn finalize(aggregator: Option<Self>) -> Self::Output {
        aggregator.and_then(|a| a.best)
    }
}

#[test]
fn aggregate_steps_then_finalizes() {
    let mut acc = Longest::default();
    acc.step("pear".to_string());
    acc.step("pineapple".to_string());
    acc.step("fig".to_string());
    assert_eq!(Longest::finalize(Some(acc)), Some("pineapple".to_string()));
}

#[test]
fn aggregate_finalizes_without_rows() {
    assert_eq!(Longest::finalize(None), None);
}
