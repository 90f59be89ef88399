use flesch_reading_ease::{FleschReadingEase, Language, SCORE_SCALE};

fn score_of(fre: &FleschReadingEase, text: &str) -> f64 {
    fre.calculate(text) as f64 / SCORE_SCALE as f64
}

#[test]
fn test_english() {
    let fre = FleschReadingEase::new(Language::English);
    let text = "This is a test sentence. It is designed to check the Flesch Reading Ease score.";
    let score = score_of(&fre, text);
    assert!(score >= 0.0 && score <= 100.0);
}

#[test]
fn test_french() {
    let fre = FleschReadingEase::new(Language::French);
    let text = "Ceci est une phrase de test. Elle est conçue pour vérifier le score de lisibilité de Flesch.";
    let score = score_of(&fre, text);
    assert!(score >= 0.0 && score <= 100.0);
}

#[test]
fn test_german() {
    let fre = FleschReadingEase::new(Language::German);
    let text = "Dies ist ein Testsatz. Es soll die Flesch-Lesbarkeitsbewertung überprüfen.";
    let score = score_of(&fre, text);
    assert!(score >= 0.0 && score <= 100.0);
}

#[test]
fn test_dutch() {
    let fre = FleschReadingEase::new(Language::Dutch);
    let text = "Dit is een testzin. Het is ontworpen om de Flesch-leesgemakscore te controleren.";
    let score = score_of(&fre, text);
    assert!(score >= 0.0 && score <= 100.0);
}

#[test]
fn test_polish() {
    let fre = FleschReadingEase::new(Language::Polish);
    let text = "To jest zdanie testowe. Jest zaprojektowane, aby sprawdzić wynik łatwości czytania Flescha.";
    let score = score_of(&fre, text);
    assert!(score >= 0.0 && score <= 100.0);
}

#[test]
fn test_bulgarian() {
    let fre = FleschReadingEase::new(Language::Bulgarian);
    let text = "Това е тестово изречение. То е предназначено да провери оценката за четивност на Флеш.";
    let score = score_of(&fre, text);
    assert!(score >= 0.0 && score <= 100.0);
}

#[test]
fn test_edge_cases() {
    let fre = FleschReadingEase::new(Language::English);
    let text = "";
    let score = score_of(&fre, text);
    assert_eq!(score, 0.0);

    let text = "A.";
    let score = score_of(&fre, text);
    assert!(score >= 0.0 && score <= 100.0);
}
