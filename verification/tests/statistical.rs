use std::collections::HashMap;

use rand::distributions::WeightedIndex;
use rand::thread_rng;
use rand_distr::{Beta, Distribution};

use nextspeaker::{
    n_recent_for_history_and_participants, occurrence_mask, position_ages, selected_name,
    selection_plan, tally_counts, ChooseError,
};

/// One full selection round: the verified plan from the library, the
/// floating-point sampling on top of it.
fn draw_next(
    participants: &Vec<String>,
    history: &Vec<String>,
    halflife: f64,
) -> Result<String, ChooseError> {
    let plan = selection_plan(participants, history)?;
    let rng = &mut thread_rng();
    let weights: Vec<f64> = if plan.uniform {
        vec![1.0; participants.len()]
    } else {
        let ages = position_ages(history.len());
        let decay: Vec<f64> = ages
            .iter()
            .map(|&t| 0.5_f64.powf(t as f64 / halflife))
            .collect();
        let mut weights = Vec::with_capacity(participants.len());
        for (i, name) in participants.iter().enumerate() {
            let mask = occurrence_mask(history, name);
            let weight_past: f64 = mask
                .iter()
                .zip(decay.iter())
                .map(|(hit, d)| if *hit { *d } else { 0.0 })
                .sum();
            if weight_past.is_nan() || weight_past < 0.0 {
                return Err(ChooseError::DistributionConstructionError);
            }
            if plan.excluded[i] {
                weights.push(0.0);
            } else {
                let dist = Beta::new(1.0, 1.0 + weight_past)
                    .map_err(|_| ChooseError::DistributionConstructionError)?;
                weights.push(dist.sample(rng));
            }
        }
        weights
    };
    let dist = WeightedIndex::new(&weights).map_err(|_| ChooseError::SamplingError)?;
    selected_name(participants, dist.sample(rng))
}

const N_REPS: usize = 1000;

#[test]
fn test_recent() {
    let participants: Vec<String> = "abcdefghijklmnopqrstuvwxyz"
        .chars()
        .map(|c| c.to_string())
        .collect();
    let history = participants.clone();
    for _ in 0..N_REPS {
        let choice = draw_next(&participants, &history, 10.0).unwrap();
        for name in ["x", "y", "z"] {
            assert_ne!(choice, name);
        }
    }
}

#[derive(Debug)]
struct HistSlice {
    duration: usize,
    favorites: Vec<(usize, f64)>,
}

impl HistSlice {
    fn weights(&self, n_participants: usize) -> Vec<f64> {
        let favorites: HashMap<usize, f64> = self.favorites.iter().copied().collect();
        (0..n_participants)
            .map(|i| match favorites.get(&i) {
                Some(favor) => *favor,
                None => 1.0 / (n_participants as f64),
            })
            .collect()
    }
}

const UNIVERSE: &str = "0123456789abcdefghijklmnopqrstuvwxyzABCDEFGHIJKLMNOPQRSTUVWXYZ";

/// A participant list and a history sampled slice by slice from the given
/// weights, with the `non_recent` participants swapped out of the recency
/// window so that only their decayed frequency weighs on them.
fn scenario(
    n_participants: usize,
    history_slices: &[HistSlice],
    non_recent: &[usize],
) -> (Vec<String>, Vec<String>) {
    assert!(n_participants <= UNIVERSE.len());
    let mut rng = thread_rng();
    let participants: Vec<String> = UNIVERSE
        .chars()
        .take(n_participants)
        .map(|c| c.to_string())
        .collect();
    let mut history: Vec<String> = history_slices
        .iter()
        .flat_map(|hist_slice| {
            let weights = hist_slice.weights(n_participants);
            (0..hist_slice.duration)
                .map(|_| {
                    let dist = WeightedIndex::new(&weights).unwrap();
                    participants[dist.sample(&mut rng)].clone()
                })
                .collect::<Vec<_>>()
        })
        .collect();
    let n_recent = n_recent_for_history_and_participants(history.len(), n_participants);
    loop {
        let mut n_changed = 0;
        for i in (history.len() - n_recent)..history.len() {
            for to_omit in non_recent {
                if history[i] == participants[*to_omit] {
                    let weights =
                        history_slices[history_slices.len() - 1].weights(n_participants);
                    let choice = WeightedIndex::new(&weights).unwrap().sample(&mut rng);
                    history[i] = participants[choice].clone();
                    n_changed += 1;
                }
            }
        }
        if n_changed == 0 {
            break;
        }
    }
    (participants, history)
}

#[test]
fn test_forgetting() {
    let (participants, history) = scenario(
        10,
        &[
            HistSlice {
                duration: 1000,
                favorites: vec![(0, 100.0)],
            },
            HistSlice {
                duration: 100,
                favorites: vec![(1, 10.0)],
            },
            HistSlice {
                duration: 100,
                favorites: vec![(2, 10.0)],
            },
            HistSlice {
                duration: 100,
                favorites: vec![],
            },
        ],
        &[0, 1, 2],
    );
    let halflife_vals = [1000.0, 1.0];
    let mut selected: Vec<Vec<String>> = vec![vec![], vec![]];
    for _ in 0..N_REPS {
        selected[0].push(draw_next(&participants, &history, halflife_vals[0]).unwrap());
        selected[1].push(draw_next(&participants, &history, halflife_vals[1]).unwrap());
    }
    let counts: Vec<u64> = [0, 1]
        .into_iter()
        .map(|i| tally_counts(&participants, &selected[i])[0])
        .collect();
    assert!(counts[0] < counts[1]);
}

#[test]
fn uniform_frequencies_on_empty_history() {
    let participants: Vec<String> = ["a", "b", "c", "d"]
        .iter()
        .map(|s| s.to_string())
        .collect();
    let mut selections: Vec<String> = vec![];
    for _ in 0..4000 {
        selections.push(draw_next(&participants, &vec![], 10.0).unwrap());
    }
    let counts = tally_counts(&participants, &selections);
    for (name, count) in participants.iter().zip(counts.iter()) {
        assert!(
            (800..=1200).contains(count),
            "count of {name} is {count}, too far from uniform"
        );
    }
}

#[test]
fn single_candidate_is_always_returned() {
    let participants = vec!["solo".to_string()];
    let mut history: Vec<String> = vec![];
    for _ in 0..200 {
        let choice = draw_next(&participants, &history, 10.0).unwrap();
        assert_eq!(choice, "solo");
        history.push(choice);
    }
}

#[test]
fn every_selection_is_a_candidate() {
    let participants: Vec<String> = ["ada", "ben", "cyd", "dee", "eli"]
        .iter()
        .map(|s| s.to_string())
        .collect();
    let mut history: Vec<String> = vec!["ada", "ben", "ada", "cyd"]
        .iter()
        .map(|s| s.to_string())
        .collect();
    for _ in 0..500 {
        let choice = draw_next(&participants, &history, 7.5).unwrap();
        assert!(participants.contains(&choice));
        history.push(choice);
    }
}
