use vstd::prelude::*;

verus! {

/// A source of documents of type `Doc` that answers searches.
pub trait Query {
    type Doc;
    type Parameters;

    /// The documents that match `parameters`, or why they could not be had.
    fn search_documents(&self, parameters: Self::Parameters) -> Result<Vec<Self::Doc>, String>;
}

/// Why a search failed.
#[derive(Debug, Clone)]
pub enum SearchError {
    DocumentRetrievalError { details: String },
}

/// Why a use case failed.
#[derive(Debug, Clone)]
pub enum UseCaseError {
    Execution { details: String },
}

/// The use case of searching documents through a query.
pub struct SearchDocuments<Q> {
    pub query: Q,
}

/// Parameters of the search use case.
pub struct SearchDocumentsParameters<P> {
    pub parameters: P,
}

/// The outcome of a search from what the query returned: its documents, or
/// a retrieval error that carries the query's reason.
pub fn retrieval_outcome<D>(found: Result<Vec<D>, String>) -> (r: Result<Vec<D>, SearchError>)
    ensures
        found matches Ok(docs) ==> r == Ok::<Vec<D>, SearchError>(docs),
        found matches Err(why) ==> r matches Err(SearchError::DocumentRetrievalError { details })
            && details == why,
{
    match found {
        Ok(docs) => Ok(docs),
        Err(details) => Err(SearchError::DocumentRetrievalError { details }),
    }
}

/// The outcome of the use case from the outcome of the search.
pub fn execution_outcome<D>(found: Result<Vec<D>, SearchError>) -> (r: Result<Vec<D>, UseCaseError>)
    ensures
        found matches Ok(docs) ==> r == Ok::<Vec<D>, UseCaseError>(docs),
        found matches Err(SearchError::DocumentRetrievalError { details }) ==> r matches Err(
            UseCaseError::Execution { details: d },
        ) && d == details,
{
    match found {
        Ok(docs) => Ok(docs),
        Err(SearchError::DocumentRetrievalError { details }) => Err(UseCaseError::Execution { details }),
    }
}

impl<Q> SearchDocuments<Q> {
    /// The use case over `query`.
    pub fn new(query: Q) -> (r: SearchDocuments<Q>)
        ensures
            r.query == query,
    {
        SearchDocuments { query }
    }
}

impl<Q: Query> SearchDocuments<Q> {
    /// Searches the documents that match `parameters`.
    pub fn search_documents(&self, parameters: Q::Parameters) -> (r: Result<Vec<Q::Doc>, SearchError>) {
        retrieval_outcome(self.query.search_documents(parameters))
    }

    /// Runs the use case.
    pub fn execute(&self, param: SearchDocumentsParameters<Q::Parameters>) -> (r: Result<Vec<Q::Doc>, UseCaseError>) {
        execution_outcome(self.search_documents(param.parameters))
    }
}

} // verus!
