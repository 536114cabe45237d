use vstd::prelude::*;
use vstd::string::StringExecFns;
use crate::binary64::Binary64;
use crate::random_process::GeometricBrownianMotion;

verus! {

/// The stochastic models an asset can be configured with.
#[derive(Clone, Copy, Debug, PartialEq, Eq, Structural)]
pub enum ModelType {
    GeometricBrownianMotion,
}

/// The configured parameters of a geometric Brownian motion.
#[derive(Clone, Copy, Debug, PartialEq, Eq, Structural)]
pub struct GeometricBrownianMotionParams {
    pub drift: Binary64,
    pub volatility: Binary64,
}

/// The parameters configured for an asset, one optional entry per model.
#[derive(Clone, Copy, Debug, PartialEq, Eq, Structural)]
pub struct ModelParameters {
    pub gbm: Option<GeometricBrownianMotionParams>,
}

/// The model configured for the assets of one kind under one identifier.
#[derive(Clone, Debug)]
pub struct AssetModelConfig {
    /// The kind of asset, such as `stock`.
    pub asset_type: String,
    /// The identifier the entry is configured for.
    pub asset_identifier_pattern: String,
    pub default_model: ModelType,
    pub parameters: ModelParameters,
}

/// The whole configuration.
#[derive(Clone, Debug)]
pub struct GlobalConfig {
    pub random_seed: Option<u64>,
    pub simulation_period_days: u32,
    pub time_step_minutes: u64,
    pub asset_models: Option<Vec<AssetModelConfig>>,
}

/// Why no model parameters could be found for an asset.
#[derive(Clone, Copy, Debug, PartialEq, Eq, Structural)]
pub enum LookupError {
    /// The configuration has no list of asset models at all.
    NoAssetModels,
    /// No stock model is configured for the identifier.
    NoModelForIdentifier,
    /// The model found asks for parameters that are not configured.
    MissingGbmParameters,
}

impl LookupError {
    /// The wording of the error for a lookup of `identifier`.
    pub open spec fn message_text(self, identifier: Seq<char>) -> Seq<char> {
        match self {
            LookupError::NoAssetModels => "No asset_models configured in GlobalConfig."@,
            LookupError::NoModelForIdentifier => "No model config found for stock identifier: "@
                + identifier,
            LookupError::MissingGbmParameters => "GBM parameters not configured for identifier: "@
                + identifier,
        }
    }

    /// Words the error for a lookup of `identifier`.
    pub fn message(self, identifier: &str) -> (r: String)
        ensures
            r@ == self.message_text(identifier@),
    {
        match self {
            LookupError::NoAssetModels => "No asset_models configured in GlobalConfig.".to_owned(),
            LookupError::NoModelForIdentifier => {
                "No model config found for stock identifier: ".to_owned().concat(identifier)
            },
            LookupError::MissingGbmParameters => {
                "GBM parameters not configured for identifier: ".to_owned().concat(identifier)
            },
        }
    }
}

/// The entry is a stock model configured for exactly this identifier.
pub open spec fn is_stock_model_for(entry: &AssetModelConfig, identifier: Seq<char>) -> bool {
    entry.asset_type@ == "stock"@ && entry.asset_identifier_pattern@ == identifier
}

/// Position `i` holds the first stock model for the identifier.
pub open spec fn first_stock_model_at(
    models: Seq<AssetModelConfig>,
    identifier: Seq<char>,
    i: int,
) -> bool {
    &&& 0 <= i < models.len()
    &&& is_stock_model_for(&models[i], identifier)
    &&& forall|j: int| 0 <= j < i ==> !is_stock_model_for(&#[trigger] models[j], identifier)
}

/// The position of the first stock model for the identifier, if the list
/// holds one.
pub open spec fn stock_model_position(models: Seq<AssetModelConfig>, identifier: Seq<char>) -> Option<
    int,
> {
    if exists|i: int| first_stock_model_at(models, identifier, i) {
        Some(choose|i: int| first_stock_model_at(models, identifier, i))
    } else {
        None
    }
}

/// At most one position holds the first stock model for an identifier.
pub proof fn lemma_first_stock_model_unique(
    models: Seq<AssetModelConfig>,
    identifier: Seq<char>,
    i: int,
    j: int,
)
    requires
        first_stock_model_at(models, identifier, i),
        first_stock_model_at(models, identifier, j),
    ensures
        i == j,
{
    if i < j {
        assert(!is_stock_model_for(&models[i], identifier));
    }
    if j < i {
        assert(!is_stock_model_for(&models[j], identifier));
    }
}

/// The position of the first stock model is a position of the list at which
/// a stock model for the identifier stands, with none before it; and there
/// is no such position exactly when the list holds no stock model for the
/// identifier.
pub proof fn lemma_stock_model_position(models: Seq<AssetModelConfig>, identifier: Seq<char>)
    ensures
        match stock_model_position(models, identifier) {
            Some(i) => first_stock_model_at(models, identifier, i),
            None => forall|j: int|
                0 <= j < models.len() ==> !is_stock_model_for(&#[trigger] models[j], identifier),
        },
{
    if stock_model_position(models, identifier) is None {
        assert forall|j: int| 0 <= j < models.len() implies !is_stock_model_for(
            &#[trigger] models[j],
            identifier,
        ) by {
            if is_stock_model_for(&models[j], identifier) {
                lemma_some_match_has_first(models, identifier, j);
            }
        }
    }
}

/// Where some position up to `j` holds a stock model for the identifier,
/// some position holds the first one.
proof fn lemma_some_match_has_first(models: Seq<AssetModelConfig>, identifier: Seq<char>, j: int)
    requires
        0 <= j < models.len(),
        is_stock_model_for(&models[j], identifier),
    ensures
        exists|i: int| first_stock_model_at(models, identifier, i),
    decreases j,
{
    if exists|k: int| 0 <= k < j && is_stock_model_for(&#[trigger] models[k], identifier) {
        let k = choose|k: int| 0 <= k < j && is_stock_model_for(&#[trigger] models[k], identifier);
        lemma_some_match_has_first(models, identifier, k);
    } else {
        assert(first_stock_model_at(models, identifier, j));
    }
}

/// Finds the first stock model configured for the identifier.
pub fn find_stock_model(models: &Vec<AssetModelConfig>, identifier: &str) -> (r: Option<usize>)
    ensures
        stock_model_position(models@, identifier@) == match r {
            Some(i) => Some(i as int),
            None => None::<int>,
        },
{
    let stock: String = "stock".to_owned();
    let wanted: String = identifier.to_owned();
    let mut i: usize = 0;
    while i < models.len()
        invariant
            i <= models@.len(),
            stock@ == "stock"@,
            wanted@ == identifier@,
            forall|j: int| 0 <= j < i ==> !is_stock_model_for(&#[trigger] models@[j], identifier@),
        decreases models@.len() - i,
    {
        let entry = &models[i];
        if entry.asset_type == stock && entry.asset_identifier_pattern == wanted {
            proof {
                assert(first_stock_model_at(models@, identifier@, i as int));
                lemma_stock_model_position(models@, identifier@);
                lemma_first_stock_model_unique(
                    models@,
                    identifier@,
                    i as int,
                    stock_model_position(models@, identifier@)->Some_0,
                );
            }
            return Some(i);
        }
        i = i + 1;
    }
    proof {
        lemma_stock_model_position(models@, identifier@);
    }
    None
}

impl GlobalConfig {
    /// The process that a stock simulation for `identifier` runs with: the
    /// parameters of the first stock model configured for exactly that
    /// identifier, each replaced by its override where one is given.
    ///
    /// There is none where the configuration has no list of models, where
    /// the list has no stock model for the identifier, and where that model
    /// lacks its parameters; overrides do not make up for missing parameters.
    pub open spec fn stock_process(
        &self,
        identifier: Seq<char>,
        override_drift: Option<Binary64>,
        override_volatility: Option<Binary64>,
    ) -> Result<GeometricBrownianMotion, LookupError> {
        match self.asset_models {
            None => Err(LookupError::NoAssetModels),
            Some(models) => match stock_model_position(models@, identifier) {
                None => Err(LookupError::NoModelForIdentifier),
                Some(i) => match models@[i].parameters.gbm {
                    None => Err(LookupError::MissingGbmParameters),
                    Some(configured) => Ok(
                        GeometricBrownianMotion {
                            drift: match override_drift {
                                Some(d) => d,
                                None => configured.drift,
                            },
                            volatility: match override_volatility {
                                Some(v) => v,
                                None => configured.volatility,
                            },
                        },
                    ),
                },
            },
        }
    }

    /// Looks up the process that a stock simulation for `identifier` runs
    /// with.
    pub fn resolve_stock_process(
        &self,
        identifier: &str,
        override_drift: Option<Binary64>,
        override_volatility: Option<Binary64>,
    ) -> (r: Result<GeometricBrownianMotion, LookupError>)
        ensures
            r == self.stock_process(identifier@, override_drift, override_volatility),
    {
        let models = match &self.asset_models {
            Some(models) => models,
            None => {
                return Err(LookupError::NoAssetModels);
            },
        };
        let found = match find_stock_model(models, identifier) {
            Some(i) => i,
            None => {
                return Err(LookupError::NoModelForIdentifier);
            },
        };
        proof {
            lemma_stock_model_position(models@, identifier@);
        }
        match models[found].default_model {
            ModelType::GeometricBrownianMotion => match models[found].parameters.gbm {
                Some(configured) => {
                    let drift = match override_drift {
                        Some(d) => d,
                        None => configured.drift,
                    };
                    let volatility = match override_volatility {
                        Some(v) => v,
                        None => configured.volatility,
                    };
                    Ok(GeometricBrownianMotion { drift, volatility })
                },
                None => Err(LookupError::MissingGbmParameters),
            },
        }
    }
}

} // verus!
