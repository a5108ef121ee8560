use sidefuzz::optimizer::{
    breed_str_slice, inital_population, mutate_str_slice, Optimizer, POPULATION_SIZE,
};
use sidefuzz::util::{InputPair, ScoredInputPair};

#[test]
fn optimizer_test() {
    let target = b"GENETIC ALGOS!";
    let mut optimizer = Optimizer::new(
        target.len(),
        |first: &Vec<u8>, second: &Vec<u8>| {
            let mut score: i128 = 0;
            for item in [first, second].iter() {
                for (i, byte) in item.iter().enumerate() {
                    let diff = if &target[i] > byte {
                        target[i] - byte
                    } else if byte > &target[i] {
                        byte - target[i]
                    } else {
                        0
                    };
                    score = score - (diff as i128);
                }
            }
            ScoredInputPair {
                score,
                highest: 0,
                lowest: 0,
                pair: InputPair {
                    first: first.to_vec(),
                    second: second.to_vec(),
                    is_str: false,
                },
            }
        },
        false,
    );

    // Run one thousand generations
    for _ in 0..1000 {
        optimizer.step();
    }

    // This will be sorted
    let population = optimizer.scored_population();

    assert_eq!(population[0].pair.first, target);
    assert_eq!(population[0].pair.second, target);
}

fn constant_fitness(first: &Vec<u8>, second: &Vec<u8>) -> ScoredInputPair {
    ScoredInputPair {
        score: first[0] as i128,
        highest: 0,
        lowest: 0,
        pair: InputPair { first: first.clone(), second: second.clone(), is_str: false },
    }
}

#[test]
fn population_keeps_size_and_lengths_over_steps() {
    let mut optimizer = Optimizer::new(7, constant_fitness, false);
    for _ in 0..25 {
        optimizer.step();
        let population = optimizer.population();
        assert_eq!(population.len(), POPULATION_SIZE);
        for pair in population.iter() {
            assert_eq!(pair.first.len(), 7);
            assert_eq!(pair.second.len(), 7);
        }
    }
}

#[test]
fn text_population_keeps_size_and_lengths_over_steps() {
    let mut optimizer = Optimizer::new(5, constant_fitness, true);
    for _ in 0..10 {
        optimizer.step();
    }
    let population = optimizer.population();
    assert_eq!(population.len(), POPULATION_SIZE);
    for pair in population.iter() {
        assert_eq!(pair.first.len(), 5);
        assert_eq!(pair.second.len(), 5);
        assert!(pair.is_str);
    }
}

#[test]
fn scored_population_is_sorted_descending() {
    let optimizer = Optimizer::new(3, constant_fitness, false);
    let scored = optimizer.scored_population();
    assert_eq!(scored.len(), POPULATION_SIZE);
    for w in scored.windows(2) {
        assert!(w[0].score >= w[1].score);
    }
}

#[test]
fn scored_population_is_a_permutation_of_scores() {
    let optimizer = Optimizer::new(3, constant_fitness, false);
    let mut expected: Vec<i128> =
        optimizer.population().iter().map(|p| p.first[0] as i128).collect();
    expected.sort();
    expected.reverse();
    let got: Vec<i128> = optimizer.scored_population().iter().map(|s| s.score).collect();
    assert_eq!(got, expected);
}

#[test]
fn elites_survive_a_step() {
    let mut optimizer = Optimizer::new(4, constant_fitness, false);
    let best = optimizer.scored_population()[0].pair.clone();
    optimizer.step();
    let population = optimizer.population();
    assert!(population
        .iter()
        .any(|p| p.first == best.first && p.second == best.second));
}

#[test]
fn initial_population_shapes() {
    let population = inital_population(9, false);
    assert_eq!(population.len(), POPULATION_SIZE);
    for pair in population.iter() {
        assert_eq!(pair.first.len(), 9);
        assert_eq!(pair.second.len(), 9);
        assert!(!pair.is_str);
    }
    let text = inital_population(6, true);
    assert_eq!(text.len(), POPULATION_SIZE);
    for pair in text.iter() {
        assert!(pair.is_str);
        assert!(pair.first.iter().all(|b| b.is_ascii_alphanumeric()));
        assert!(pair.second.iter().all(|b| b.is_ascii_alphanumeric()));
    }
}

#[test]
fn initial_population_of_empty_inputs() {
    let population = inital_population(0, false);
    assert_eq!(population.len(), POPULATION_SIZE);
    assert!(population.iter().all(|p| p.first.is_empty() && p.second.is_empty()));
}

#[test]
fn breed_str_slice_gives_valid_text_of_same_length() {
    let first = b"hello world".to_vec();
    let second = b"HELLO WORLD".to_vec();
    for _ in 0..50 {
        let child = breed_str_slice(&first, &second);
        assert_eq!(child.len(), first.len());
        assert!(std::str::from_utf8(&child).is_ok());
        for (i, b) in child.iter().enumerate() {
            assert!(*b == first[i] || *b == second[i]);
        }
    }
}

#[test]
fn breed_str_slice_repairs_invalid_crossover() {
    // A crossover of these two can split the two-byte sequence.
    let first = "é".as_bytes().to_vec();
    let second = b"ab".to_vec();
    for _ in 0..50 {
        let child = breed_str_slice(&first, &second);
        assert_eq!(child.len(), 2);
        assert!(std::str::from_utf8(&child).is_ok());
    }
}

#[test]
fn mutate_str_slice_keeps_valid_text() {
    for _ in 0..50 {
        let mut text = b"abcdefgh".to_vec();
        mutate_str_slice(&mut text);
        assert_eq!(text.len(), 8);
        assert!(std::str::from_utf8(&text).is_ok());
    }
}

#[test]
fn mutate_str_slice_on_empty_input() {
    let mut text: Vec<u8> = Vec::new();
    mutate_str_slice(&mut text);
    assert!(text.is_empty());
}
