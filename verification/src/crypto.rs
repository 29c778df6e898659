pub mod poseidon;
