use inquire::autocompletion::{AutoComplete, Replacement};
use inquire::error::CustomUserError;

#[derive(Clone, Default)]
struct Words {
    typed: String,
}

impl AutoComplete for Words {
    fn update_input(&mut self, input: &str) -> Result<(), CustomUserError> {
        self.typed = input.to_string();
        Ok(())
    }

    fn get_suggestions(&self) -> Result<Vec<String>, CustomUserError> {
        Ok(["apple", "apricot", "banana"].iter().filter(|w| w.starts_with(self.typed.as_str())).map(|w| w.to_string()).collect())
    }

    fn get_completion(&self, selected_suggestion: Option<(usize, &str)>) -> Result<Replacement, CustomUserError> {
        Ok(selected_suggestion.map(|(_, s)| s.to_string()))
    }
}

#[test]
fn completer_follows_the_input() {
    let mut w = Words::default();
    w.update_input("ap").unwrap();
    assert_eq!(vec!["apple".to_string(), "apricot".to_string()], w.get_suggestions().unwrap());
    assert_eq!(Some("apricot".to_string()), w.get_completion(Some((1, "apricot"))).unwrap());
    assert_eq!(None, w.get_completion(None).unwrap());
}
